//! The mirroring of one repository: make sure of a local copy, make sure of
//! the mirror remote, push.

use vstd::prelude::*;
use crate::exchange::{Reply, ReplyView, Request, RequestView};
use crate::git::{
    add_mirror_remote, add_mirror_remote_args, check_git_return, clone, clone_args, command_return,
    failure_notices, fetch, fetch_args, get_remotes, has_mirror_remote, list_remotes, push,
    push_args, remote_args, remotes_of, run_git_command, start_notices, MIRROR_REMOTE_NAME,
};
use crate::notice::{notice_views, Notice, NoticeView};
use crate::outcome::MirrorResult;
use crate::path::{join, joined_path};

verus! {

/// Where the mirroring of a repository stands: the request that is pending.
#[derive(Clone, Copy, Debug, PartialEq, Eq, Structural)]
pub enum Stage {
    /// Asked whether the repository's directory is there.
    Probe,
    /// The mirror clone runs.
    Clone,
    /// The fetch runs.
    Fetch,
    /// The listing of remotes runs.
    Remotes,
    /// The mirror remote is being added.
    AddRemote,
    /// The mirror push runs.
    Push,
}

/// What follows a step of a mirroring.
#[derive(Clone, Copy, Debug, PartialEq, Eq, Structural)]
pub enum MirrorNext {
    /// The mirroring goes on at this stage.
    Continue(Stage),
    /// The mirroring has ended.
    Finished(MirrorResult),
}

/// The stage, or the end, that follows `stage` once `reply` is in.
///
/// A directory that is there is fetched into, one that is not is cloned. The
/// remotes are listed next, the mirror remote is added unless it is listed,
/// and the push comes last. A command that fails ends the mirroring with the
/// failure of its stage. A reply that answers another kind of request leaves
/// the stage as it is.
pub open spec fn mirror_next(stage: Stage, reply: ReplyView) -> MirrorNext {
    match (stage, reply) {
        (Stage::Probe, ReplyView::Answer(present)) => MirrorNext::Continue(
            if present {
                Stage::Fetch
            } else {
                Stage::Clone
            },
        ),
        (Stage::Clone, ReplyView::Tool(run)) => if command_return(run).0 {
            MirrorNext::Continue(Stage::Remotes)
        } else {
            MirrorNext::Finished(MirrorResult::CloneFailed)
        },
        (Stage::Fetch, ReplyView::Tool(run)) => if command_return(run).0 {
            MirrorNext::Continue(Stage::Remotes)
        } else {
            MirrorNext::Finished(MirrorResult::FetchFailed)
        },
        (Stage::Remotes, ReplyView::Tool(run)) => match remotes_of(command_return(run)) {
            None => MirrorNext::Finished(MirrorResult::RemotesError),
            Some(remotes) => MirrorNext::Continue(
                if remotes.contains(MIRROR_REMOTE_NAME@) {
                    Stage::Push
                } else {
                    Stage::AddRemote
                },
            ),
        },
        (Stage::AddRemote, ReplyView::Tool(run)) => if command_return(run).0 {
            MirrorNext::Continue(Stage::Push)
        } else {
            MirrorNext::Finished(MirrorResult::RemotesError)
        },
        (Stage::Push, ReplyView::Tool(run)) => MirrorNext::Finished(
            if command_return(run).0 {
                MirrorResult::Success
            } else {
                MirrorResult::PushFailed
            },
        ),
        _ => MirrorNext::Continue(stage),
    }
}

/// What a step of a mirroring says: that git did not start, and what git
/// printed when a command failed. A failed listing of remotes is not echoed.
pub open spec fn mirror_notices(stage: Stage, reply: ReplyView) -> Seq<NoticeView> {
    match (stage, reply) {
        (Stage::Probe, _) => seq![],
        (Stage::Remotes, ReplyView::Tool(run)) => start_notices(run),
        (_, ReplyView::Tool(run)) => start_notices(run) + failure_notices(command_return(run)),
        _ => seq![],
    }
}

/// The request that is pending at `stage` of the mirroring of `src_url` to
/// `dest_url`, for the repository `name` in the directory `path`.
pub open spec fn mirror_request_of(
    name: Seq<char>,
    src_url: Seq<char>,
    dest_url: Seq<char>,
    path: Seq<char>,
    stage: Stage,
) -> RequestView {
    let repo_path = joined_path(path, name);
    match stage {
        Stage::Probe => RequestView::IsDir(repo_path),
        Stage::Clone => RequestView::Git(clone_args(src_url, path, name)),
        Stage::Fetch => RequestView::Git(fetch_args(repo_path)),
        Stage::Remotes => RequestView::Git(remote_args(repo_path)),
        Stage::AddRemote => RequestView::Git(add_mirror_remote_args(repo_path, dest_url)),
        Stage::Push => RequestView::Git(push_args(repo_path)),
    }
}

/// The request to perform at `stage` of the mirroring of the repository
/// `name`, from `src_url` to `dest_url`, in the directory `path`.
pub fn mirror_request(name: &str, src_url: &str, dest_url: &str, path: &str, stage: Stage) -> (request:
    Request)
    ensures
        request@ == mirror_request_of(name@, src_url@, dest_url@, path@, stage),
{
    match stage {
        Stage::Probe => Request::IsDir(join(path, name)),
        Stage::Clone => Request::Git(clone(src_url, path, name)),
        Stage::Fetch => {
            let repo_path = join(path, name);
            Request::Git(fetch(repo_path.as_str()))
        },
        Stage::Remotes => {
            let repo_path = join(path, name);
            Request::Git(list_remotes(repo_path.as_str()))
        },
        Stage::AddRemote => {
            let repo_path = join(path, name);
            Request::Git(add_mirror_remote(repo_path.as_str(), dest_url))
        },
        Stage::Push => {
            let repo_path = join(path, name);
            Request::Git(push(repo_path.as_str()))
        },
    }
}

/// The end of the mirroring, if the command failed, and the stage `then`, if
/// it did not.
fn after(cmd_failure: Option<MirrorResult>, then: Stage) -> (next: MirrorNext)
    ensures
        next == match cmd_failure {
            Some(failure) => MirrorNext::Finished(failure),
            None => MirrorNext::Continue(then),
        },
{
    match cmd_failure {
        Some(failure) => MirrorNext::Finished(failure),
        None => MirrorNext::Continue(then),
    }
}

/// One step of the mirroring of a repository: takes the reply to the request
/// of `stage` and gives what follows. What there is to tell the operator is
/// added to `notices`.
pub fn mirror_repo(stage: Stage, reply: Reply, notices: &mut Vec<Notice>) -> (next: MirrorNext)
    ensures
        next == mirror_next(stage, reply@),
        notice_views(final(notices)@) == notice_views(old(notices)@) + mirror_notices(
            stage,
            reply@,
        ),
{
    let ghost before = notice_views(notices@);
    match reply {
        Reply::Answer(present) => {
            assert(before =~= before + mirror_notices(stage, reply@));
            match stage {
                Stage::Probe => MirrorNext::Continue(
                    if present {
                        Stage::Fetch
                    } else {
                        Stage::Clone
                    },
                ),
                _ => MirrorNext::Continue(stage),
            }
        },
        Reply::Tool(run) => {
            if let Stage::Probe = stage {
                assert(before =~= before + mirror_notices(stage, reply@));
                return MirrorNext::Continue(stage);
            }
            let ghost said = start_notices(run@);
            let cmd_return = run_git_command(run, notices);
            if let Stage::Remotes = stage {
                return match get_remotes(&cmd_return) {
                    None => MirrorNext::Finished(MirrorResult::RemotesError),
                    Some(remotes) => MirrorNext::Continue(
                        if has_mirror_remote(&remotes) {
                            Stage::Push
                        } else {
                            Stage::AddRemote
                        },
                    ),
                };
            }
            let on_error = match stage {
                Stage::Clone => MirrorResult::CloneFailed,
                Stage::Fetch => MirrorResult::FetchFailed,
                Stage::Push => MirrorResult::PushFailed,
                _ => MirrorResult::RemotesError,
            };
            let failure = check_git_return(&cmd_return, on_error, notices);
            assert(notice_views(notices@) =~= before + (said + failure_notices(
                cmd_return.deep_view(),
            )));
            match stage {
                Stage::Push => match failure {
                    Some(failure) => MirrorNext::Finished(failure),
                    None => MirrorNext::Finished(MirrorResult::Success),
                },
                Stage::AddRemote => after(failure, Stage::Push),
                _ => after(failure, Stage::Remotes),
            }
        },
        _ => {
            assert(before =~= before + mirror_notices(stage, reply@));
            MirrorNext::Continue(stage)
        },
    }
}

/// The reply tells of a git command that failed, or that did not start.
pub open spec fn command_failed(reply: ReplyView) -> bool {
    reply matches ReplyView::Tool(run) && !command_return(run).0
}

/// The reply tells of a git command that succeeded.
pub open spec fn command_passed(reply: ReplyView) -> bool {
    reply matches ReplyView::Tool(run) && command_return(run).0
}

/// The request runs a mirror clone.
pub open spec fn clones(request: RequestView) -> bool {
    request matches RequestView::Git(args) && args.len() == 6 && args[2] == "clone"@
}

/// The request adds a remote.
pub open spec fn adds_remote(request: RequestView) -> bool {
    request matches RequestView::Git(args) && args.len() == 6 && args[2] == "remote"@ && args[3]
        == "add"@
}

/// Each end of a mirroring names the stage that it comes from. A clone that
/// fails ends the mirroring as a failed clone and as nothing else, and the
/// same holds of a fetch and of a push; the remotes are at fault exactly if
/// their listing gave none, or if the mirror remote could not be added;
/// success is a push that succeeded.
pub proof fn end_names_its_stage(stage: Stage, reply: ReplyView)
    ensures
        mirror_next(stage, reply) == MirrorNext::Finished(MirrorResult::CloneFailed) <==> stage
            == Stage::Clone && command_failed(reply),
        mirror_next(stage, reply) == MirrorNext::Finished(MirrorResult::FetchFailed) <==> stage
            == Stage::Fetch && command_failed(reply),
        mirror_next(stage, reply) == MirrorNext::Finished(MirrorResult::RemotesError) <==> (stage
            == Stage::AddRemote && command_failed(reply)) || (stage == Stage::Remotes && (
        reply matches ReplyView::Tool(run) && remotes_of(command_return(run)) is None)),
        mirror_next(stage, reply) == MirrorNext::Finished(MirrorResult::PushFailed) <==> stage
            == Stage::Push && command_failed(reply),
        mirror_next(stage, reply) == MirrorNext::Finished(MirrorResult::Success) <==> stage
            == Stage::Push && command_passed(reply),
{
}

/// The mirroring comes to the clone only by the answer that the directory of
/// the repository is not there: where the directory is there, it fetches.
pub proof fn clone_only_when_absent(stage: Stage, reply: ReplyView)
    ensures
        stage != Stage::Clone ==> (mirror_next(stage, reply) == MirrorNext::Continue(Stage::Clone)
            <==> stage == Stage::Probe && reply == ReplyView::Answer(false)),
        stage == Stage::Probe && reply == ReplyView::Answer(true) ==> mirror_next(stage, reply)
            == MirrorNext::Continue(Stage::Fetch),
{
}

/// The mirroring comes to add the mirror remote only by a listing of the
/// remotes that succeeded and did not name it: where the mirror remote is
/// listed, no remote is added.
pub proof fn remote_added_only_when_missing(stage: Stage, reply: ReplyView)
    ensures
        stage != Stage::AddRemote ==> (mirror_next(stage, reply) == MirrorNext::Continue(
            Stage::AddRemote,
        ) <==> stage == Stage::Remotes && (reply matches ReplyView::Tool(run) && (remotes_of(
            command_return(run),
        ) matches Some(remotes) && !remotes.contains(MIRROR_REMOTE_NAME@)))),
{
}

/// Of the requests of a mirroring, only that of the clone stage clones, and
/// only that of the stage that adds the mirror remote adds a remote.
pub proof fn request_tells_its_stage(
    name: Seq<char>,
    src_url: Seq<char>,
    dest_url: Seq<char>,
    path: Seq<char>,
    stage: Stage,
)
    ensures
        clones(mirror_request_of(name, src_url, dest_url, path, stage)) <==> stage == Stage::Clone,
        adds_remote(mirror_request_of(name, src_url, dest_url, path, stage)) <==> stage
            == Stage::AddRemote,
{
    reveal_strlit("clone");
    reveal_strlit("remote");
    let repo_path = joined_path(path, name);
    assert(clone_args(src_url, path, name) =~= seq![
        "-C"@,
        path,
        "clone"@,
        "--mirror"@,
        src_url,
        name,
    ]);
    assert(add_mirror_remote_args(repo_path, dest_url) =~= seq![
        "-C"@,
        repo_path,
        "remote"@,
        "add"@,
        MIRROR_REMOTE_NAME@,
        dest_url,
    ]);
    assert(fetch_args(repo_path).len() == 3);
    assert(remote_args(repo_path).len() == 3);
    assert(push_args(repo_path).len() == 5);
    assert("clone"@.len() != "remote"@.len());
}

} // verus!
