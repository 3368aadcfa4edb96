//! Whole runs: what a run on a list of replies ends in, says and asks for.
//! The modules below state what holds of every run.

pub mod account;
pub mod isolation;
pub mod order;
pub mod reports;

use vstd::prelude::*;
use crate::config::RootConfigView;
use crate::configuration::{ConfigPhase, ConfigState};
use crate::exchange::{ReplyView, RequestView};
use crate::mirror::Stage;
use crate::notice::NoticeView;
use crate::root::{root_next, root_notices, root_request_of, RootNext, RootPhase, RootState};

verus! {

/// How the run from `state` ends when the requests are answered by `replies`,
/// in order; `None` if it has not ended when the replies are used up.
pub open spec fn run_end(root: RootConfigView, state: RootState, replies: Seq<ReplyView>) -> Option<
    bool,
>
    decreases replies.len(),
{
    if replies.len() == 0 {
        None
    } else {
        match root_next(root, state, replies[0]) {
            RootNext::Finished(success) => Some(success),
            RootNext::Continue(next) => run_end(root, next, replies.drop_first()),
        }
    }
}

/// What the run from `state` says while `replies` answer its requests.
pub open spec fn run_notices(root: RootConfigView, state: RootState, replies: Seq<ReplyView>) -> Seq<
    NoticeView,
>
    decreases replies.len(),
{
    if replies.len() == 0 {
        seq![]
    } else {
        root_notices(root, state, replies[0]) + match root_next(root, state, replies[0]) {
            RootNext::Finished(_) => seq![],
            RootNext::Continue(next) => run_notices(root, next, replies.drop_first()),
        }
    }
}

/// The requests that `replies` answer in the run from `state`, in order.
pub open spec fn run_requests(root: RootConfigView, state: RootState, replies: Seq<ReplyView>) -> Seq<
    Option<RequestView>,
>
    decreases replies.len(),
{
    if replies.len() == 0 {
        seq![]
    } else {
        seq![root_request_of(root, state)] + match root_next(root, state, replies[0]) {
            RootNext::Finished(_) => seq![],
            RootNext::Continue(next) => run_requests(root, next, replies.drop_first()),
        }
    }
}

/// The stage of the mirror that `state` is at, if it is at a mirror of the
/// configuration file.
pub open spec fn stage_at(root: RootConfigView, state: RootState) -> Option<Stage> {
    match state.phase {
        RootPhase::Config {
            index,
            state: ConfigState { phase: ConfigPhase::Mirror { index: mirror, stage }, .. },
        } => if index < root.configurations.len() && mirror
            < root.configurations[index as int].mirrors.len() {
            Some(stage)
        } else {
            None
        },
        _ => None,
    }
}

} // verus!
