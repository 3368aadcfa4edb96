//! The end of a run is the sum of what it reported.

use vstd::prelude::*;
use crate::config::{ConfigurationView, RootConfigView};
use crate::configuration::{config_next, config_notices, ConfigNextView, ConfigPhase, ConfigState};
use crate::exchange::ReplyView;
use crate::mirror::{mirror_next, mirror_notices, MirrorNext, Stage};
use crate::notice::NoticeView;
use crate::outcome::MirrorResult;
use crate::root::{
    entering_notices, root_next, root_notices, root_start, RootNext, RootPhase, RootState,
};
use crate::run::{run_end, run_notices};

verus! {

/// No notice in `notices` reports a failure.
pub open spec fn no_failure(notices: Seq<NoticeView>) -> bool {
    forall|i: int| 0 <= i < notices.len() ==> !(#[trigger] notices[i]).is_failure()
}

/// Whether nothing has failed on the way to `state`.
pub open spec fn standing(root: RootConfigView, state: RootState) -> bool {
    match state.phase {
        RootPhase::Config { index, state: inner } => if index < root.configurations.len() {
            state.success && inner.success
        } else {
            state.success
        },
        _ => state.success,
    }
}

proof fn no_failure_of_both(first: Seq<NoticeView>, second: Seq<NoticeView>)
    ensures
        no_failure(first + second) == (no_failure(first) && no_failure(second)),
{
    let both = first + second;
    if no_failure(first) && no_failure(second) {
        assert forall|i: int| 0 <= i < both.len() implies !(#[trigger] both[i]).is_failure() by {
            if i < first.len() {
                assert(both[i] == first[i]);
            } else {
                assert(both[i] == second[i - first.len()]);
            }
        }
    }
    if no_failure(both) {
        assert forall|i: int| 0 <= i < first.len() implies !(#[trigger] first[i]).is_failure() by {
            assert(both[i] == first[i]);
        }
        assert forall|i: int| 0 <= i < second.len() implies !(#[trigger] second[i]).is_failure() by {
            assert(both[i + first.len()] == second[i]);
        }
    }
}

proof fn mirroring_reports_no_failure(stage: Stage, reply: ReplyView)
    ensures
        no_failure(mirror_notices(stage, reply)),
{
}

proof fn config_step_keeps_account(config: ConfigurationView, state: ConfigState, reply: ReplyView)
    ensures
        match config_next(config, state, reply) {
            ConfigNextView::Continue(next) => next.success == (state.success && no_failure(
                config_notices(config, state, reply),
            )),
            ConfigNextView::Finished(Ok(all)) => all == (state.success && no_failure(
                config_notices(config, state, reply),
            )),
            ConfigNextView::Finished(Err(_)) => no_failure(config_notices(config, state, reply)),
        },
{
    match state.phase {
        ConfigPhase::Mirror { index, stage } => {
            if index < config.mirrors.len() {
                mirroring_reports_no_failure(stage, reply);
                let ended = match mirror_next(stage, reply) {
                    MirrorNext::Continue(_) => seq![],
                    MirrorNext::Finished(result) => seq![
                        NoticeView::Mirrored { name: config.mirrors[index as int].name, result },
                    ],
                };
                no_failure_of_both(mirror_notices(stage, reply), ended);
                match mirror_next(stage, reply) {
                    MirrorNext::Continue(_) => {},
                    MirrorNext::Finished(result) => {
                        assert(ended[0].is_failure() == (result
                            != MirrorResult::Success));
                    },
                }
            }
        },
        _ => {},
    }
}

proof fn step_keeps_account(root: RootConfigView, state: RootState, reply: ReplyView)
    ensures
        match root_next(root, state, reply) {
            RootNext::Continue(next) => standing(root, next) == (standing(root, state)
                && no_failure(root_notices(root, state, reply))),
            RootNext::Finished(success) => success == (standing(root, state) && no_failure(
                root_notices(root, state, reply),
            )),
        },
{
    match state.phase {
        RootPhase::Config { index, state: inner } => {
            if index < root.configurations.len() {
                let config = root.configurations[index as int];
                config_step_keeps_account(config, inner, reply);
                let rest = match config_next(config, inner, reply) {
                    ConfigNextView::Continue(_) => seq![],
                    ConfigNextView::Finished(Ok(_)) => entering_notices(
                        root,
                        index + 1,
                    ),
                    ConfigNextView::Finished(Err(reason)) => seq![
                        NoticeView::ConfigurationError { name: config.name, reason },
                    ] + entering_notices(root, index + 1),
                };
                no_failure_of_both(config_notices(config, inner, reply), rest);
                match config_next(config, inner, reply) {
                    ConfigNextView::Finished(Err(reason)) => {
                        assert(rest[0].is_failure());
                    },
                    _ => {},
                }
            }
        },
        RootPhase::Create => {
            match reply {
                ReplyView::NotCreated(reason) => {
                    assert(root_notices(root, state, reply)[0].is_failure());
                },
                _ => {},
            }
        },
        _ => {},
    }
}

proof fn run_keeps_account(root: RootConfigView, state: RootState, replies: Seq<ReplyView>)
    ensures
        run_end(root, state, replies) matches Some(success) ==> success == (standing(root, state)
            && no_failure(run_notices(root, state, replies))),
    decreases replies.len(),
{
    if replies.len() > 0 {
        step_keeps_account(root, state, replies[0]);
        match root_next(root, state, replies[0]) {
            RootNext::Finished(_) => {
                no_failure_of_both(root_notices(root, state, replies[0]), seq![]);
            },
            RootNext::Continue(next) => {
                run_keeps_account(root, next, replies.drop_first());
                no_failure_of_both(
                    root_notices(root, state, replies[0]),
                    run_notices(root, next, replies.drop_first()),
                );
            },
        }
    }
}

/// A run that ends, ends in success exactly if it reported no failure: every
/// mirror that it reported ended in success, and no directory failed to be
/// created. One mirror that fails makes the whole run a failure, whatever the
/// others did.
pub proof fn success_is_absence_of_failure(root: RootConfigView, replies: Seq<ReplyView>)
    ensures
        run_end(root, root_start(), replies) matches Some(success) ==> success == no_failure(
            run_notices(root, root_start(), replies),
        ),
{
    run_keeps_account(root, root_start(), replies);
}

} // verus!
