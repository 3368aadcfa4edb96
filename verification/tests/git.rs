use mira::exchange::ToolRun;
use mira::git::{
    add_mirror_remote, check_git_return, clone, fetch, get_remotes, has_mirror_remote,
    list_remotes, push, run_git_command, run_git_command_in, GitCmdReturn, MIRROR_REMOTE_NAME,
};
use mira::notice::Notice;
use mira::outcome::MirrorResult;

fn strings(words: &[&str]) -> Vec<String> {
    words.iter().map(|word| word.to_string()).collect()
}

#[test]
fn mirror_remote_is_named_mirror() {
    assert_eq!(MIRROR_REMOTE_NAME, "mirror");
}

#[test]
fn working_directory_option_comes_first() {
    let full = run_git_command_in(strings(&["status", "--short"]), "/srv/repos");
    assert_eq!(full, strings(&["-C", "/srv/repos", "status", "--short"]));
}

#[test]
fn working_directory_option_alone_for_no_arguments() {
    assert_eq!(run_git_command_in(Vec::new(), "here"), strings(&["-C", "here"]));
}

#[test]
fn clone_is_a_mirror_clone_in_the_parent_directory() {
    assert_eq!(
        clone("https://a/x.git", "/tmp/ws/teamA", "repo1"),
        strings(&["-C", "/tmp/ws/teamA", "clone", "--mirror", "https://a/x.git", "repo1"])
    );
}

#[test]
fn fetch_runs_in_the_repository() {
    assert_eq!(fetch("/tmp/ws/teamA/repo1"), strings(&["-C", "/tmp/ws/teamA/repo1", "fetch"]));
}

#[test]
fn remotes_are_listed_in_the_repository() {
    assert_eq!(
        list_remotes("/tmp/ws/teamA/repo1"),
        strings(&["-C", "/tmp/ws/teamA/repo1", "remote"])
    );
}

#[test]
fn mirror_remote_is_added_with_the_destination() {
    assert_eq!(
        add_mirror_remote("/tmp/ws/teamA/repo1", "git@b:x.git"),
        strings(&["-C", "/tmp/ws/teamA/repo1", "remote", "add", "mirror", "git@b:x.git"])
    );
}

#[test]
fn push_is_a_mirror_push_to_the_mirror_remote() {
    assert_eq!(
        push("/tmp/ws/teamA/repo1"),
        strings(&["-C", "/tmp/ws/teamA/repo1", "push", "--mirror", "mirror"])
    );
}

#[test]
fn successful_run_gives_standard_output() {
    let mut notices = Vec::new();
    let run = ToolRun::Exited {
        success: true,
        stdout: b"origin\n".to_vec(),
        stderr: b"warning".to_vec(),
    };
    assert_eq!(run_git_command(run, &mut notices), (true, Some("origin\n".to_string())));
    assert!(notices.is_empty());
}

#[test]
fn failed_run_gives_standard_error() {
    let mut notices = Vec::new();
    let run = ToolRun::Exited {
        success: false,
        stdout: b"partial".to_vec(),
        stderr: b"fatal: no such remote".to_vec(),
    };
    assert_eq!(
        run_git_command(run, &mut notices),
        (false, Some("fatal: no such remote".to_string()))
    );
    assert!(notices.is_empty());
}

#[test]
fn output_that_is_not_utf8_gives_no_text() {
    let mut notices = Vec::new();
    let run = ToolRun::Exited { success: true, stdout: vec![0xff, 0xfe, 0x41], stderr: Vec::new() };
    assert_eq!(run_git_command(run, &mut notices), (true, None));
    let run = ToolRun::Exited { success: false, stdout: b"fine".to_vec(), stderr: vec![0xc3] };
    assert_eq!(run_git_command(run, &mut notices), (false, None));
    assert!(notices.is_empty());
}

#[test]
fn output_in_utf8_is_decoded() {
    let mut notices = Vec::new();
    let run = ToolRun::Exited {
        success: true,
        stdout: vec![0x6d, 0xc3, 0xa9, 0x20, 0xe2, 0x82, 0xac],
        stderr: Vec::new(),
    };
    assert_eq!(run_git_command(run, &mut notices), (true, Some("m\u{e9} \u{20ac}".to_string())));
}

#[test]
fn run_that_did_not_start_is_a_failure_without_text() {
    let mut notices = vec![Notice::Processing { name: "teamA".to_string() }];
    let run = ToolRun::NotStarted { reason: "No such file or directory".to_string() };
    assert_eq!(run_git_command(run, &mut notices), (false, None));
    assert_eq!(
        notices,
        vec![
            Notice::Processing { name: "teamA".to_string() },
            Notice::GitNotRun { reason: "No such file or directory".to_string() },
        ]
    );
}

#[test]
fn success_is_no_failure() {
    let mut notices = Vec::new();
    let cmd_return: GitCmdReturn = (true, Some("done".to_string()));
    assert_eq!(check_git_return(&cmd_return, MirrorResult::CloneFailed, &mut notices), None);
    assert!(notices.is_empty());
}

#[test]
fn failure_gives_the_stage_and_echoes_git() {
    let mut notices = Vec::new();
    let cmd_return: GitCmdReturn = (false, Some("fatal: refused".to_string()));
    assert_eq!(
        check_git_return(&cmd_return, MirrorResult::PushFailed, &mut notices),
        Some(MirrorResult::PushFailed)
    );
    assert_eq!(notices, vec![Notice::GitOutput { text: "fatal: refused".to_string() }]);
}

#[test]
fn failure_without_text_echoes_nothing() {
    let mut notices = Vec::new();
    let cmd_return: GitCmdReturn = (false, None);
    assert_eq!(
        check_git_return(&cmd_return, MirrorResult::FetchFailed, &mut notices),
        Some(MirrorResult::FetchFailed)
    );
    assert!(notices.is_empty());
}

#[test]
fn remotes_are_the_words_of_the_listing() {
    let cmd_return: GitCmdReturn = (true, Some("origin\nmirror\n".to_string()));
    assert_eq!(get_remotes(&cmd_return), Some(strings(&["origin", "mirror"])));
}

#[test]
fn remotes_are_split_on_any_whitespace() {
    let cmd_return: GitCmdReturn = (true, Some("  a\tb \r\n\u{2003}c\u{a0}d  ".to_string()));
    assert_eq!(get_remotes(&cmd_return), Some(strings(&["a", "b", "c", "d"])));
}

#[test]
fn empty_listing_has_no_remotes() {
    let cmd_return: GitCmdReturn = (true, Some(String::new()));
    assert_eq!(get_remotes(&cmd_return), Some(Vec::new()));
    let cmd_return: GitCmdReturn = (true, Some(" \n".to_string()));
    assert_eq!(get_remotes(&cmd_return), Some(Vec::new()));
}

#[test]
fn failed_listing_has_no_answer() {
    let cmd_return: GitCmdReturn = (false, Some("origin".to_string()));
    assert_eq!(get_remotes(&cmd_return), None);
    let cmd_return: GitCmdReturn = (false, None);
    assert_eq!(get_remotes(&cmd_return), None);
}

#[test]
fn listing_without_text_has_no_answer() {
    let cmd_return: GitCmdReturn = (true, None);
    assert_eq!(get_remotes(&cmd_return), None);
}

#[test]
fn mirror_remote_is_found_among_others() {
    assert!(has_mirror_remote(&strings(&["origin", "mirror", "backup"])));
    assert!(has_mirror_remote(&strings(&["mirror"])));
}

#[test]
fn mirror_remote_is_missed_when_absent() {
    assert!(!has_mirror_remote(&Vec::new()));
    assert!(!has_mirror_remote(&strings(&["origin", "mirrors", "Mirror", "mirro"])));
}
