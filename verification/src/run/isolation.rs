//! How one mirror ends does not touch the mirrors after it.

use vstd::prelude::*;
use crate::config::RootConfigView;
use crate::exchange::ReplyView;
use crate::mirror::mirror_next;
use crate::root::{root_next, root_notices, root_request_of, RootNext, RootPhase, RootState};
use crate::run::{run_end, run_notices, run_requests, stage_at};

verus! {

/// Whether two states stand at the same point of the run, whatever has failed
/// on the way there.
pub open spec fn same_place(one: RootState, other: RootState) -> bool {
    match (one.phase, other.phase) {
        (RootPhase::Probe, RootPhase::Probe) => true,
        (RootPhase::Create, RootPhase::Create) => true,
        (
            RootPhase::Config { index: i, state: a },
            RootPhase::Config { index: j, state: b },
        ) => i == j && a.phase == b.phase,
        _ => false,
    }
}

/// Whether two steps lead to the same point: both to the end of the run, or
/// both to the same place.
pub open spec fn lead_alike(one: RootNext, other: RootNext) -> bool {
    match (one, other) {
        (RootNext::Continue(a), RootNext::Continue(b)) => same_place(a, b),
        (RootNext::Finished(_), RootNext::Finished(_)) => true,
        _ => false,
    }
}

proof fn step_from_same_place(
    root: RootConfigView,
    one: RootState,
    other: RootState,
    reply: ReplyView,
)
    requires
        same_place(one, other),
    ensures
        lead_alike(root_next(root, one, reply), root_next(root, other, reply)),
        root_notices(root, one, reply) == root_notices(root, other, reply),
        root_request_of(root, one) == root_request_of(root, other),
{
}

proof fn run_from_same_place(
    root: RootConfigView,
    one: RootState,
    other: RootState,
    replies: Seq<ReplyView>,
)
    requires
        same_place(one, other),
    ensures
        run_requests(root, one, replies) == run_requests(root, other, replies),
        run_notices(root, one, replies) == run_notices(root, other, replies),
        run_end(root, one, replies).is_some() == run_end(root, other, replies).is_some(),
    decreases replies.len(),
{
    if replies.len() > 0 {
        step_from_same_place(root, one, other, replies[0]);
        match (root_next(root, one, replies[0]), root_next(root, other, replies[0])) {
            (RootNext::Continue(a), RootNext::Continue(b)) => {
                run_from_same_place(root, a, b, replies.drop_first());
            },
            _ => {},
        }
    }
}

/// However a mirror ends, the rest of the run is the same: with a push that
/// fails in place of one that succeeds, or any other two replies that end the
/// mirror at its stage, the run either ends at once both times, or goes on to
/// ask for the same work, in the same order, and to say the same of it, for
/// every list of replies that follow. So a failure in one mirror neither keeps
/// a later mirror, of the same or of a later configuration, from being
/// attempted, nor changes how it ends.
pub proof fn end_of_mirror_is_isolated(
    root: RootConfigView,
    state: RootState,
    one: ReplyView,
    other: ReplyView,
    rest: Seq<ReplyView>,
)
    requires
        stage_at(root, state) matches Some(stage) && mirror_next(stage, one) is Finished
            && mirror_next(stage, other) is Finished,
    ensures
        match (root_next(root, state, one), root_next(root, state, other)) {
            (RootNext::Continue(a), RootNext::Continue(b)) => {
                &&& run_requests(root, a, rest) == run_requests(root, b, rest)
                &&& run_notices(root, a, rest) == run_notices(root, b, rest)
                &&& run_end(root, a, rest).is_some() == run_end(root, b, rest).is_some()
            },
            (RootNext::Finished(_), RootNext::Finished(_)) => true,
            _ => false,
        },
{
    match (root_next(root, state, one), root_next(root, state, other)) {
        (RootNext::Continue(a), RootNext::Continue(b)) => {
            run_from_same_place(root, a, b, rest);
        },
        _ => {},
    }
}

} // verus!
