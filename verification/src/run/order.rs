//! A clone and the addition of a remote are asked for only in their place.

use vstd::prelude::*;
use crate::config::RootConfigView;
use crate::configuration::{ConfigPhase, ConfigState};
use crate::exchange::{ReplyView, RequestView};
use crate::git::{command_return, remote_args, remotes_of, MIRROR_REMOTE_NAME};
use crate::mirror::{adds_remote, clones, request_tells_its_stage, Stage};
use crate::path::joined_path;
use crate::root::{root_next, root_request_of, root_start, RootNext, RootPhase, RootState};
use crate::run::{run_requests, stage_at};

verus! {

/// The arguments of a request that runs git; none for another request.
pub open spec fn git_args(request: RequestView) -> Seq<Seq<char>> {
    match request {
        RequestView::Git(args) => args,
        _ => seq![],
    }
}

/// Whether the clone `request` is in its place behind the request `before`
/// and its `reply`: the request before asked for the directory of the
/// repository that is to be cloned, and the reply was that it is not there;
/// or the clone was pending already, and the reply did not answer it.
pub open spec fn clone_is_due(
    before: Option<RequestView>,
    reply: ReplyView,
    request: RequestView,
) -> bool {
    let args = git_args(request);
    ||| before == Some(RequestView::IsDir(joined_path(args[1], args[5]))) && reply
        == ReplyView::Answer(false)
    ||| before == Some(request)
}

/// The reply is a listing of remotes that succeeded and does not name the
/// mirror remote.
pub open spec fn lacks_mirror_remote(reply: ReplyView) -> bool {
    reply matches ReplyView::Tool(run) && (remotes_of(command_return(run)) matches Some(remotes)
        && !remotes.contains(MIRROR_REMOTE_NAME@))
}

/// Whether the addition of a remote that `request` asks for is in its place
/// behind the request `before` and its `reply`: the request before listed the
/// remotes of the same repository, and the reply was a listing that does not
/// name the mirror remote; or the addition was pending already, and the reply
/// did not answer it.
pub open spec fn remote_is_due(
    before: Option<RequestView>,
    reply: ReplyView,
    request: RequestView,
) -> bool {
    let args = git_args(request);
    ||| before == Some(RequestView::Git(remote_args(args[1]))) && lacks_mirror_remote(reply)
    ||| before == Some(request)
}

/// Whether `request`, if it clones or adds a remote, is in its place behind
/// the request `before` and its `reply`.
pub open spec fn in_place(
    before: Option<RequestView>,
    reply: ReplyView,
    request: Option<RequestView>,
) -> bool {
    match request {
        Some(request) => {
            &&& clones(request) ==> clone_is_due(before, reply, request)
            &&& adds_remote(request) ==> remote_is_due(before, reply, request)
        },
        None => true,
    }
}

proof fn request_tells_stage_at(root: RootConfigView, state: RootState)
    ensures
        root_request_of(root, state) matches Some(request) && clones(request) ==> stage_at(
            root,
            state,
        ) == Some(Stage::Clone),
        root_request_of(root, state) matches Some(request) && adds_remote(request) ==> stage_at(
            root,
            state,
        ) == Some(Stage::AddRemote),
{
    match state.phase {
        RootPhase::Config {
            index,
            state: ConfigState { phase: ConfigPhase::Mirror { index: at, stage }, .. },
        } => {
            if index < root.configurations.len() {
                let config = root.configurations[index as int];
                if at < config.mirrors.len() {
                    let mirror = config.mirrors[at as int];
                    request_tells_its_stage(
                        mirror.name,
                        mirror.src,
                        mirror.dest,
                        joined_path(root.workspace, config.name),
                        stage,
                    );
                }
            }
        },
        _ => {},
    }
}

proof fn step_asks_in_place(root: RootConfigView, state: RootState, reply: ReplyView)
    ensures
        root_next(root, state, reply) matches RootNext::Continue(next) ==> in_place(
            root_request_of(root, state),
            reply,
            root_request_of(root, next),
        ),
{
    match root_next(root, state, reply) {
        RootNext::Continue(next) => {
            request_tells_stage_at(root, next);
            match root_request_of(root, next) {
                Some(request) => {
                    if clones(request) || adds_remote(request) {
                        let index = next.phase->Config_index;
                        let inner = next.phase->Config_state;
                        let at = inner.phase->Mirror_index;
                        let config = root.configurations[index as int];
                        let mirror = config.mirrors[at as int];
                        let path = joined_path(root.workspace, config.name);
                        let repo_path = joined_path(path, mirror.name);
                        assert(state.phase is Config);
                        assert(state.phase->Config_index == index);
                        assert(state.phase->Config_state.phase is Mirror);
                        assert(state.phase->Config_state.phase->Mirror_index == at);
                        if clones(request) {
                            assert(git_args(request) =~= seq![
                                "-C"@,
                                path,
                                "clone"@,
                                "--mirror"@,
                                mirror.src,
                                mirror.name,
                            ]);
                        } else {
                            assert(git_args(request) =~= seq![
                                "-C"@,
                                repo_path,
                                "remote"@,
                                "add"@,
                                MIRROR_REMOTE_NAME@,
                                mirror.dest,
                            ]);
                        }
                    }
                },
                None => {},
            }
        },
        _ => {},
    }
}

proof fn run_asks_in_place(
    root: RootConfigView,
    state: RootState,
    replies: Seq<ReplyView>,
    k: int,
)
    requires
        1 <= k < run_requests(root, state, replies).len(),
    ensures
        k < replies.len(),
        in_place(
            run_requests(root, state, replies)[k - 1],
            replies[k - 1],
            run_requests(root, state, replies)[k],
        ),
    decreases replies.len(),
{
    let rest = replies.drop_first();
    match root_next(root, state, replies[0]) {
        RootNext::Continue(next) => {
            let later = run_requests(root, next, rest);
            assert(run_requests(root, state, replies) == seq![root_request_of(root, state)]
                + later);
            assert(run_requests(root, state, replies)[k] == later[k - 1]);
            if k == 1 {
                step_asks_in_place(root, state, replies[0]);
                assert(later[0] == root_request_of(root, next));
            } else {
                run_asks_in_place(root, next, rest, k - 1);
                assert(run_requests(root, state, replies)[k - 1] == later[k - 2]);
                assert(replies[k - 1] == rest[k - 2]);
            }
        },
        RootNext::Finished(_) => {},
    }
}

/// In every run, a clone is asked for only where the request before it asked
/// for the directory of that repository and was answered that it is not
/// there, or where the same clone was pending before. A run never clones a
/// repository whose directory is there.
pub proof fn clone_follows_absence(root: RootConfigView, replies: Seq<ReplyView>, k: int)
    requires
        0 <= k < run_requests(root, root_start(), replies).len(),
        run_requests(root, root_start(), replies)[k] matches Some(request) && clones(request),
    ensures
        0 < k < replies.len(),
        clone_is_due(
            run_requests(root, root_start(), replies)[k - 1],
            replies[k - 1],
            run_requests(root, root_start(), replies)[k].unwrap(),
        ),
{
    if k > 0 {
        run_asks_in_place(root, root_start(), replies, k);
    }
}

/// In every run, a remote is added only where the request before it listed
/// the remotes of that repository and the listing did not name the mirror
/// remote, or where the same addition was pending before. A run never adds
/// the mirror remote to a repository that lists it.
pub proof fn remote_add_follows_listing(root: RootConfigView, replies: Seq<ReplyView>, k: int)
    requires
        0 <= k < run_requests(root, root_start(), replies).len(),
        run_requests(root, root_start(), replies)[k] matches Some(request) && adds_remote(
            request,
        ),
    ensures
        0 < k < replies.len(),
        remote_is_due(
            run_requests(root, root_start(), replies)[k - 1],
            replies[k - 1],
            run_requests(root, root_start(), replies)[k].unwrap(),
        ),
{
    if k > 0 {
        run_asks_in_place(root, root_start(), replies, k);
    }
}

/// A run in which no answer is that a directory is not there clones nothing:
/// where the repositories are there already, a run only fetches.
pub proof fn run_without_absence_clones_nothing(
    root: RootConfigView,
    replies: Seq<ReplyView>,
    k: int,
)
    requires
        forall|i: int| 0 <= i < replies.len() ==> replies[i] != ReplyView::Answer(false),
        0 <= k < run_requests(root, root_start(), replies).len(),
    ensures
        !(run_requests(root, root_start(), replies)[k] matches Some(request) && clones(request)),
    decreases k,
{
    if run_requests(root, root_start(), replies)[k] matches Some(request) && clones(request) {
        clone_follows_absence(root, replies, k);
        run_without_absence_clones_nothing(root, replies, k - 1);
    }
}

/// A run in which no listing of remotes lacks the mirror remote adds no
/// remote: where the mirror remote is there already, it is not added again.
pub proof fn run_with_mirror_remote_adds_none(
    root: RootConfigView,
    replies: Seq<ReplyView>,
    k: int,
)
    requires
        forall|i: int| 0 <= i < replies.len() ==> !lacks_mirror_remote(replies[i]),
        0 <= k < run_requests(root, root_start(), replies).len(),
    ensures
        !(run_requests(root, root_start(), replies)[k] matches Some(request) && adds_remote(
            request,
        )),
    decreases k,
{
    if run_requests(root, root_start(), replies)[k] matches Some(request) && adds_remote(request) {
        remote_add_follows_listing(root, replies, k);
        run_with_mirror_remote_adds_none(root, replies, k - 1);
    }
}

} // verus!
