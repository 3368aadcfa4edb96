use mira::config::{Configuration, Mirror};
use mira::configuration::{
    begin_config, config_request, process_config, ConfigNext, ConfigPhase, ConfigState,
};
use mira::exchange::{Reply, Request, ToolRun};
use mira::mirror::Stage;
use mira::notice::Notice;
use mira::outcome::MirrorResult;

fn mirror(name: &str) -> Mirror {
    Mirror {
        name: name.to_string(),
        src: format!("https://a/{}.git", name),
        dest: format!("git@b:{}.git", name),
    }
}

fn team(names: &[&str]) -> Configuration {
    Configuration { name: "teamA".to_string(), mirrors: names.iter().map(|n| mirror(n)).collect() }
}

fn passed(stdout: &str) -> Reply {
    Reply::Tool(ToolRun::Exited {
        success: true,
        stdout: stdout.as_bytes().to_vec(),
        stderr: Vec::new(),
    })
}

fn failed(stderr: &str) -> Reply {
    Reply::Tool(ToolRun::Exited {
        success: false,
        stdout: Vec::new(),
        stderr: stderr.as_bytes().to_vec(),
    })
}

fn at(index: usize, stage: Stage, success: bool) -> ConfigState {
    ConfigState { phase: ConfigPhase::Mirror { index, stage }, success }
}

fn mirrored(name: &str, result: MirrorResult) -> Notice {
    Notice::Mirrored { name: name.to_string(), result }
}

/// Works through `config` with `replies`; gives the notices and the end.
fn work(config: &Configuration, replies: Vec<Reply>) -> (Vec<Notice>, Option<Result<bool, String>>) {
    let mut notices = Vec::new();
    let mut state = begin_config(config, &mut notices);
    for reply in replies {
        match process_config(config, state, reply, &mut notices) {
            ConfigNext::Continue(next) => state = next,
            ConfigNext::Finished(end) => return (notices, Some(end)),
        }
    }
    (notices, None)
}

#[test]
fn work_begins_with_a_notice_and_the_directory() {
    let config = team(&["repo1"]);
    let mut notices = Vec::new();
    let state = begin_config(&config, &mut notices);
    assert_eq!(state, ConfigState { phase: ConfigPhase::Probe, success: true });
    assert_eq!(notices, vec![Notice::Processing { name: "teamA".to_string() }]);
    assert_eq!(
        config_request(&config, "/tmp/ws", state),
        Some(Request::IsDir("/tmp/ws/teamA".to_string()))
    );
}

#[test]
fn missing_directory_is_created() {
    let config = team(&["repo1"]);
    let mut notices = Vec::new();
    let state = ConfigState { phase: ConfigPhase::Probe, success: true };
    let next = process_config(&config, state, Reply::Answer(false), &mut notices);
    let create = ConfigState { phase: ConfigPhase::Create, success: true };
    assert_eq!(next, ConfigNext::Continue(create));
    assert_eq!(
        config_request(&config, "/tmp/ws", create),
        Some(Request::CreateDirAll("/tmp/ws/teamA".to_string()))
    );
    let next = process_config(&config, create, Reply::Created, &mut notices);
    assert_eq!(next, ConfigNext::Continue(at(0, Stage::Probe, true)));
    assert!(notices.is_empty());
}

#[test]
fn directory_that_is_there_is_not_created() {
    let config = team(&["repo1"]);
    let mut notices = Vec::new();
    let state = ConfigState { phase: ConfigPhase::Probe, success: true };
    let next = process_config(&config, state, Reply::Answer(true), &mut notices);
    assert_eq!(next, ConfigNext::Continue(at(0, Stage::Probe, true)));
}

#[test]
fn directory_that_cannot_be_created_ends_the_work_with_the_reason() {
    let config = team(&["repo1", "repo2"]);
    let (notices, end) =
        work(&config, vec![Reply::Answer(false), Reply::NotCreated("Permission denied".to_string())]);
    assert_eq!(end, Some(Err("Permission denied".to_string())));
    assert_eq!(notices, vec![Notice::Processing { name: "teamA".to_string() }]);
}

#[test]
fn configuration_without_mirrors_succeeds_at_once() {
    let (notices, end) = work(&team(&[]), vec![Reply::Answer(true)]);
    assert_eq!(end, Some(Ok(true)));
    assert_eq!(notices, vec![Notice::Processing { name: "teamA".to_string() }]);
    let (_, end) = work(&team(&[]), vec![Reply::Answer(false), Reply::Created]);
    assert_eq!(end, Some(Ok(true)));
}

#[test]
fn mirror_requests_are_those_of_the_mirror_in_the_configuration_directory() {
    let config = team(&["repo1", "repo2"]);
    assert_eq!(
        config_request(&config, "/tmp/ws", at(1, Stage::Probe, true)),
        Some(Request::IsDir("/tmp/ws/teamA/repo2".to_string()))
    );
    let words = ["-C", "/tmp/ws/teamA", "clone", "--mirror", "https://a/repo2.git", "repo2"];
    assert_eq!(
        config_request(&config, "/tmp/ws", at(1, Stage::Clone, false)),
        Some(Request::Git(words.iter().map(|word| word.to_string()).collect()))
    );
    let words = ["-C", "/tmp/ws/teamA/repo1", "remote", "add", "mirror", "git@b:repo1.git"];
    assert_eq!(
        config_request(&config, "/tmp/ws", at(0, Stage::AddRemote, true)),
        Some(Request::Git(words.iter().map(|word| word.to_string()).collect()))
    );
}

#[test]
fn state_past_the_last_mirror_asks_nothing_and_ends() {
    let config = team(&["repo1"]);
    assert_eq!(config_request(&config, "/tmp/ws", at(1, Stage::Push, true)), None);
    let mut notices = Vec::new();
    assert_eq!(
        process_config(&config, at(1, Stage::Push, false), passed(""), &mut notices),
        ConfigNext::Finished(Ok(false))
    );
    assert_eq!(
        process_config(&config, at(7, Stage::Probe, true), Reply::Answer(true), &mut notices),
        ConfigNext::Finished(Ok(true))
    );
    assert!(notices.is_empty());
}

#[test]
fn all_mirrors_in_success_is_success() {
    let config = team(&["repo1", "repo2"]);
    let replies = vec![
        Reply::Answer(true),
        Reply::Answer(false),
        passed(""),
        passed(""),
        passed(""),
        passed(""),
        Reply::Answer(true),
        passed(""),
        passed("mirror\n"),
        passed(""),
    ];
    let (notices, end) = work(&config, replies);
    assert_eq!(end, Some(Ok(true)));
    assert_eq!(
        notices,
        vec![
            Notice::Processing { name: "teamA".to_string() },
            mirrored("repo1", MirrorResult::Success),
            mirrored("repo2", MirrorResult::Success),
        ]
    );
}

#[test]
fn failed_mirror_does_not_stop_the_next_one() {
    let config = team(&["repo1", "repo2", "repo3"]);
    let replies = vec![
        Reply::Answer(true),
        Reply::Answer(false),
        failed("fatal: repository not found"),
        Reply::Answer(true),
        passed(""),
        passed("mirror"),
        failed("remote: denied"),
        Reply::Answer(true),
        passed(""),
        passed("mirror"),
        passed(""),
    ];
    let (notices, end) = work(&config, replies);
    assert_eq!(end, Some(Ok(false)));
    assert_eq!(
        notices,
        vec![
            Notice::Processing { name: "teamA".to_string() },
            Notice::GitOutput { text: "fatal: repository not found".to_string() },
            mirrored("repo1", MirrorResult::CloneFailed),
            Notice::GitOutput { text: "remote: denied".to_string() },
            mirrored("repo2", MirrorResult::PushFailed),
            mirrored("repo3", MirrorResult::Success),
        ]
    );
}

#[test]
fn one_failure_is_remembered_to_the_end() {
    let config = team(&["repo1", "repo2"]);
    let mut notices = Vec::new();
    let next = process_config(&config, at(0, Stage::Fetch, true), failed(""), &mut notices);
    assert_eq!(next, ConfigNext::Continue(at(1, Stage::Probe, false)));
    let next = process_config(&config, at(1, Stage::Push, false), passed(""), &mut notices);
    assert_eq!(next, ConfigNext::Finished(Ok(false)));
    let next = process_config(&config, at(1, Stage::Push, true), passed(""), &mut notices);
    assert_eq!(next, ConfigNext::Finished(Ok(true)));
}

#[test]
fn step_within_a_mirror_keeps_its_place() {
    let config = team(&["repo1", "repo2"]);
    let mut notices = Vec::new();
    let next = process_config(&config, at(1, Stage::Probe, true), Reply::Answer(true), &mut notices);
    assert_eq!(next, ConfigNext::Continue(at(1, Stage::Fetch, true)));
    let next = process_config(&config, at(1, Stage::Fetch, true), passed(""), &mut notices);
    assert_eq!(next, ConfigNext::Continue(at(1, Stage::Remotes, true)));
    assert!(notices.is_empty());
}

#[test]
fn reply_of_another_kind_leaves_the_configuration_where_it_is() {
    let config = team(&["repo1"]);
    let mut notices = Vec::new();
    let probe = ConfigState { phase: ConfigPhase::Probe, success: true };
    assert_eq!(
        process_config(&config, probe, Reply::Created, &mut notices),
        ConfigNext::Continue(probe)
    );
    assert_eq!(process_config(&config, probe, passed(""), &mut notices), ConfigNext::Continue(probe));
    let create = ConfigState { phase: ConfigPhase::Create, success: true };
    assert_eq!(
        process_config(&config, create, Reply::Answer(true), &mut notices),
        ConfigNext::Continue(create)
    );
    assert_eq!(
        process_config(&config, at(0, Stage::Push, true), Reply::Created, &mut notices),
        ConfigNext::Continue(at(0, Stage::Push, true))
    );
    assert!(notices.is_empty());
}

#[test]
fn mirrors_of_one_name_are_each_worked_on() {
    let config = team(&["same", "same"]);
    let replies = vec![
        Reply::Answer(true),
        Reply::Answer(false),
        passed(""),
        passed(""),
        passed(""),
        passed(""),
        Reply::Answer(true),
        passed(""),
        passed("mirror"),
        passed(""),
    ];
    let (notices, end) = work(&config, replies);
    assert_eq!(end, Some(Ok(true)));
    assert_eq!(
        notices,
        vec![
            Notice::Processing { name: "teamA".to_string() },
            mirrored("same", MirrorResult::Success),
            mirrored("same", MirrorResult::Success),
        ]
    );
}
