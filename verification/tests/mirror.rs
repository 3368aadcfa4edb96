use mira::exchange::{Reply, Request, ToolRun};
use mira::mirror::{mirror_repo, mirror_request, MirrorNext, Stage};
use mira::notice::Notice;
use mira::outcome::MirrorResult;

const GIT_STAGES: [Stage; 5] =
    [Stage::Clone, Stage::Fetch, Stage::Remotes, Stage::AddRemote, Stage::Push];

fn passed(stdout: &str) -> Reply {
    Reply::Tool(ToolRun::Exited {
        success: true,
        stdout: stdout.as_bytes().to_vec(),
        stderr: b"not shown".to_vec(),
    })
}

fn failed(stderr: &str) -> Reply {
    Reply::Tool(ToolRun::Exited {
        success: false,
        stdout: b"not shown".to_vec(),
        stderr: stderr.as_bytes().to_vec(),
    })
}

fn not_started(reason: &str) -> Reply {
    Reply::Tool(ToolRun::NotStarted { reason: reason.to_string() })
}

fn step(stage: Stage, reply: Reply) -> (MirrorNext, Vec<Notice>) {
    let mut notices = Vec::new();
    let next = mirror_repo(stage, reply, &mut notices);
    (next, notices)
}

fn git(words: &[&str]) -> Request {
    Request::Git(words.iter().map(|word| word.to_string()).collect())
}

#[test]
fn absent_directory_is_cloned() {
    assert_eq!(
        step(Stage::Probe, Reply::Answer(false)),
        (MirrorNext::Continue(Stage::Clone), Vec::new())
    );
}

#[test]
fn present_directory_is_fetched_and_never_cloned() {
    assert_eq!(
        step(Stage::Probe, Reply::Answer(true)),
        (MirrorNext::Continue(Stage::Fetch), Vec::new())
    );
}

#[test]
fn clone_that_succeeds_goes_on_to_the_remotes() {
    assert_eq!(step(Stage::Clone, passed("")), (MirrorNext::Continue(Stage::Remotes), Vec::new()));
}

#[test]
fn clone_that_fails_is_clone_failed() {
    assert_eq!(
        step(Stage::Clone, failed("fatal: repository not found")),
        (
            MirrorNext::Finished(MirrorResult::CloneFailed),
            vec![Notice::GitOutput { text: "fatal: repository not found".to_string() }]
        )
    );
}

#[test]
fn fetch_that_succeeds_goes_on_to_the_remotes() {
    assert_eq!(
        step(Stage::Fetch, passed("From https://a/x")),
        (MirrorNext::Continue(Stage::Remotes), Vec::new())
    );
}

#[test]
fn fetch_that_fails_is_fetch_failed() {
    assert_eq!(
        step(Stage::Fetch, failed("fatal: unable to access")),
        (
            MirrorNext::Finished(MirrorResult::FetchFailed),
            vec![Notice::GitOutput { text: "fatal: unable to access".to_string() }]
        )
    );
}

#[test]
fn missing_mirror_remote_is_added() {
    assert_eq!(
        step(Stage::Remotes, passed("origin\n")),
        (MirrorNext::Continue(Stage::AddRemote), Vec::new())
    );
    assert_eq!(
        step(Stage::Remotes, passed("")),
        (MirrorNext::Continue(Stage::AddRemote), Vec::new())
    );
}

#[test]
fn listed_mirror_remote_is_not_added_again() {
    assert_eq!(
        step(Stage::Remotes, passed("origin\nmirror\n")),
        (MirrorNext::Continue(Stage::Push), Vec::new())
    );
}

#[test]
fn remote_with_a_longer_name_is_not_the_mirror_remote() {
    assert_eq!(
        step(Stage::Remotes, passed("mirror2 my-mirror\n")),
        (MirrorNext::Continue(Stage::AddRemote), Vec::new())
    );
}

#[test]
fn failed_listing_is_a_remotes_error_without_echo() {
    assert_eq!(
        step(Stage::Remotes, failed("fatal: not a git repository")),
        (MirrorNext::Finished(MirrorResult::RemotesError), Vec::new())
    );
}

#[test]
fn listing_that_is_not_text_is_a_remotes_error() {
    let reply = Reply::Tool(ToolRun::Exited {
        success: true,
        stdout: vec![0x80],
        stderr: Vec::new(),
    });
    assert_eq!(
        step(Stage::Remotes, reply),
        (MirrorNext::Finished(MirrorResult::RemotesError), Vec::new())
    );
}

#[test]
fn remote_that_cannot_be_added_is_a_remotes_error() {
    assert_eq!(
        step(Stage::AddRemote, failed("error: remote mirror already exists.")),
        (
            MirrorNext::Finished(MirrorResult::RemotesError),
            vec![Notice::GitOutput { text: "error: remote mirror already exists.".to_string() }]
        )
    );
}

#[test]
fn added_remote_is_pushed_to() {
    assert_eq!(step(Stage::AddRemote, passed("")), (MirrorNext::Continue(Stage::Push), Vec::new()));
}

#[test]
fn push_that_succeeds_is_success() {
    assert_eq!(
        step(Stage::Push, passed("Everything up-to-date")),
        (MirrorNext::Finished(MirrorResult::Success), Vec::new())
    );
}

#[test]
fn push_that_fails_is_push_failed() {
    assert_eq!(
        step(Stage::Push, failed("remote: denied")),
        (
            MirrorNext::Finished(MirrorResult::PushFailed),
            vec![Notice::GitOutput { text: "remote: denied".to_string() }]
        )
    );
}

#[test]
fn git_that_does_not_start_fails_the_stage() {
    let expected = [
        MirrorResult::CloneFailed,
        MirrorResult::FetchFailed,
        MirrorResult::RemotesError,
        MirrorResult::RemotesError,
        MirrorResult::PushFailed,
    ];
    for (stage, result) in GIT_STAGES.iter().zip(expected.iter()) {
        assert_eq!(
            step(*stage, not_started("git: not found")),
            (
                MirrorNext::Finished(*result),
                vec![Notice::GitNotRun { reason: "git: not found".to_string() }]
            )
        );
    }
}

#[test]
fn failure_whose_output_is_not_text_echoes_nothing() {
    let reply = Reply::Tool(ToolRun::Exited {
        success: false,
        stdout: Vec::new(),
        stderr: vec![0xff],
    });
    assert_eq!(step(Stage::Push, reply), (MirrorNext::Finished(MirrorResult::PushFailed), Vec::new()));
}

#[test]
fn notices_are_added_behind_earlier_ones() {
    let mut notices = vec![Notice::Processing { name: "teamA".to_string() }];
    let next = mirror_repo(Stage::Clone, failed("no"), &mut notices);
    assert_eq!(next, MirrorNext::Finished(MirrorResult::CloneFailed));
    assert_eq!(
        notices,
        vec![
            Notice::Processing { name: "teamA".to_string() },
            Notice::GitOutput { text: "no".to_string() },
        ]
    );
}

#[test]
fn reply_of_another_kind_leaves_the_stage() {
    assert_eq!(step(Stage::Probe, passed("")), (MirrorNext::Continue(Stage::Probe), Vec::new()));
    assert_eq!(step(Stage::Probe, failed("x")), (MirrorNext::Continue(Stage::Probe), Vec::new()));
    assert_eq!(step(Stage::Probe, Reply::Created), (MirrorNext::Continue(Stage::Probe), Vec::new()));
    for stage in GIT_STAGES.iter() {
        assert_eq!(step(*stage, Reply::Answer(true)), (MirrorNext::Continue(*stage), Vec::new()));
        assert_eq!(step(*stage, Reply::Created), (MirrorNext::Continue(*stage), Vec::new()));
        assert_eq!(
            step(*stage, Reply::NotCreated("denied".to_string())),
            (MirrorNext::Continue(*stage), Vec::new())
        );
    }
}

#[test]
fn probe_asks_for_the_repository_directory() {
    assert_eq!(
        mirror_request("repo1", "https://a/x.git", "git@b:x.git", "/tmp/ws/teamA", Stage::Probe),
        Request::IsDir("/tmp/ws/teamA/repo1".to_string())
    );
}

#[test]
fn clone_runs_in_the_configuration_directory() {
    assert_eq!(
        mirror_request("repo1", "https://a/x.git", "git@b:x.git", "/tmp/ws/teamA", Stage::Clone),
        git(&["-C", "/tmp/ws/teamA", "clone", "--mirror", "https://a/x.git", "repo1"])
    );
}

#[test]
fn later_commands_run_in_the_repository_directory() {
    let request = |stage| {
        mirror_request("repo1", "https://a/x.git", "git@b:x.git", "/tmp/ws/teamA", stage)
    };
    assert_eq!(request(Stage::Fetch), git(&["-C", "/tmp/ws/teamA/repo1", "fetch"]));
    assert_eq!(request(Stage::Remotes), git(&["-C", "/tmp/ws/teamA/repo1", "remote"]));
    assert_eq!(
        request(Stage::AddRemote),
        git(&["-C", "/tmp/ws/teamA/repo1", "remote", "add", "mirror", "git@b:x.git"])
    );
    assert_eq!(
        request(Stage::Push),
        git(&["-C", "/tmp/ws/teamA/repo1", "push", "--mirror", "mirror"])
    );
}

#[test]
fn relative_workspace_gives_relative_paths() {
    assert_eq!(
        mirror_request("r", "s", "d", "ws/team", Stage::Probe),
        Request::IsDir("ws/team/r".to_string())
    );
}
