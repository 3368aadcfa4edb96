//! A run that ends has reported every mirror.

use vstd::prelude::*;
use crate::config::{ConfigurationView, MirrorView, RootConfigView};
use crate::configuration::{config_next, config_notices, ConfigNextView, ConfigPhase, ConfigState};
use crate::exchange::ReplyView;
use crate::git::{command_return, failure_notices, start_notices};
use crate::mirror::{mirror_next, mirror_notices, MirrorNext, Stage};
use crate::notice::NoticeView;
use crate::root::{
    enter_config, entering_notices, root_next, root_notices, root_start, RootNext, RootPhase,
    RootState,
};
use crate::run::{run_end, run_notices};

verus! {

/// The names of the mirrors whose end `notices` report, in order.
pub open spec fn reported(notices: Seq<NoticeView>) -> Seq<Seq<char>>
    decreases notices.len(),
{
    if notices.len() == 0 {
        seq![]
    } else {
        reported(notices.drop_last()) + match notices.last() {
            NoticeView::Mirrored { name, .. } => seq![name],
            _ => seq![],
        }
    }
}

/// No notice in `notices` says that a directory could not be created.
pub open spec fn no_setup_failure(notices: Seq<NoticeView>) -> bool {
    forall|i: int|
        0 <= i < notices.len() ==> !((#[trigger] notices[i]) is ConfigurationError) && !(
        notices[i] is WorkspaceError)
}

/// The names of the mirrors of `config` from the one at `from` on, in order.
pub open spec fn mirror_names(config: ConfigurationView, from: int) -> Seq<Seq<char>> {
    if 0 <= from <= config.mirrors.len() {
        config.mirrors.subrange(from, config.mirrors.len() as int).map_values(
            |mirror: MirrorView| mirror.name,
        )
    } else {
        seq![]
    }
}

/// The names of the mirrors of the configurations of `root` from the one at
/// `from` on, in order.
pub open spec fn names_from(root: RootConfigView, from: int) -> Seq<Seq<char>>
    decreases root.configurations.len() - from,
{
    if 0 <= from < root.configurations.len() {
        mirror_names(root.configurations[from], 0) + names_from(root, from + 1)
    } else {
        seq![]
    }
}

/// The names of the mirrors of `config` that are not yet reported in `state`.
pub open spec fn remaining_in(config: ConfigurationView, state: ConfigState) -> Seq<Seq<char>> {
    match state.phase {
        ConfigPhase::Mirror { index, .. } => mirror_names(config, index as int),
        _ => mirror_names(config, 0),
    }
}

/// The names of the mirrors that are not yet reported in `state` of a run.
pub open spec fn remaining(root: RootConfigView, state: RootState) -> Seq<Seq<char>> {
    match state.phase {
        RootPhase::Config { index, state: inner } => if index < root.configurations.len() {
            remaining_in(root.configurations[index as int], inner) + names_from(root, index + 1)
        } else {
            seq![]
        },
        _ => names_from(root, 0),
    }
}

proof fn reported_of_both(first: Seq<NoticeView>, second: Seq<NoticeView>)
    ensures
        reported(first + second) == reported(first) + reported(second),
    decreases second.len(),
{
    if second.len() == 0 {
        assert(first + second =~= first);
        assert(reported(first) + reported(second) =~= reported(first));
    } else {
        assert((first + second).drop_last() =~= first + second.drop_last());
        assert((first + second).last() == second.last());
        reported_of_both(first, second.drop_last());
        let tail = match second.last() {
            NoticeView::Mirrored { name, .. } => seq![name],
            _ => seq![],
        };
        assert(reported(first) + reported(second.drop_last()) + tail =~= reported(first) + (
        reported(second.drop_last()) + tail));
    }
}

proof fn reported_of_one(notice: NoticeView)
    ensures
        reported(seq![notice]) == match notice {
            NoticeView::Mirrored { name, .. } => seq![name],
            _ => Seq::<Seq<char>>::empty(),
        },
{
    let one = seq![notice];
    assert(one.drop_last() =~= Seq::<NoticeView>::empty());
    assert(reported(one.drop_last()) =~= Seq::<Seq<char>>::empty());
    assert(one.last() == notice);
    let tail = match notice {
        NoticeView::Mirrored { name, .. } => seq![name],
        _ => Seq::<Seq<char>>::empty(),
    };
    assert(reported(one) =~= Seq::<Seq<char>>::empty() + tail);
    assert(Seq::<Seq<char>>::empty() + tail =~= tail);
}

proof fn no_setup_failure_of_both(first: Seq<NoticeView>, second: Seq<NoticeView>)
    ensures
        no_setup_failure(first + second) == (no_setup_failure(first) && no_setup_failure(second)),
{
    let both = first + second;
    if no_setup_failure(first) && no_setup_failure(second) {
        assert forall|i: int| 0 <= i < both.len() implies !((#[trigger] both[i])
            is ConfigurationError) && !(both[i] is WorkspaceError) by {
            if i < first.len() {
                assert(both[i] == first[i]);
            } else {
                assert(both[i] == second[i - first.len()]);
            }
        }
    }
    if no_setup_failure(both) {
        assert forall|i: int| 0 <= i < first.len() implies !((#[trigger] first[i])
            is ConfigurationError) && !(first[i] is WorkspaceError) by {
            assert(both[i] == first[i]);
        }
        assert forall|i: int| 0 <= i < second.len() implies !((#[trigger] second[i])
            is ConfigurationError) && !(second[i] is WorkspaceError) by {
            assert(both[i + first.len()] == second[i]);
        }
    }
}

proof fn mirroring_reports_no_end(stage: Stage, reply: ReplyView)
    ensures
        reported(mirror_notices(stage, reply)) == Seq::<Seq<char>>::empty(),
{
    match reply {
        ReplyView::Tool(run) => {
            let started = start_notices(run);
            let echoed = failure_notices(command_return(run));
            reported_of_both(started, echoed);
            if started.len() > 0 {
                assert(started =~= seq![started[0]]);
                reported_of_one(started[0]);
            }
            if echoed.len() > 0 {
                assert(echoed =~= seq![echoed[0]]);
                reported_of_one(echoed[0]);
            }
            assert(reported(started) + reported(echoed) =~= Seq::<Seq<char>>::empty());
        },
        _ => {},
    }
}

proof fn config_step_reports_in_order(
    config: ConfigurationView,
    state: ConfigState,
    reply: ReplyView,
)
    requires
        config.fits(),
    ensures
        match config_next(config, state, reply) {
            ConfigNextView::Continue(next) => reported(config_notices(config, state, reply))
                + remaining_in(config, next) == remaining_in(config, state),
            ConfigNextView::Finished(Ok(_)) => reported(config_notices(config, state, reply))
                == remaining_in(config, state),
            ConfigNextView::Finished(Err(_)) => true,
        },
{
    let said = config_notices(config, state, reply);
    let count = config.mirrors.len() as int;
    match state.phase {
        ConfigPhase::Mirror { index, stage } => {
            if index < count {
                mirroring_reports_no_end(stage, reply);
                match mirror_next(stage, reply) {
                    MirrorNext::Continue(_) => {
                        assert(said =~= mirror_notices(stage, reply));
                        assert(reported(said) + remaining_in(config, state) =~= remaining_in(
                            config,
                            state,
                        ));
                    },
                    MirrorNext::Finished(result) => {
                        let name = config.mirrors[index as int].name;
                        let ended = NoticeView::Mirrored { name, result };
                        assert(said == mirror_notices(stage, reply) + seq![ended]);
                        reported_of_both(mirror_notices(stage, reply), seq![ended]);
                        reported_of_one(ended);
                        assert(reported(said) =~= seq![name]);
                        let head = mirror_names(config, index as int);
                        let tail = mirror_names(config, index + 1);
                        assert(head.len() == tail.len() + 1);
                        assert(head[0] == name);
                        assert forall|i: int| 0 <= i < tail.len() implies tail[i] == head[i + 1] by {
                            assert(tail[i] == config.mirrors[index + 1 + i].name);
                            assert(head[i + 1] == config.mirrors[index + (i + 1)].name);
                        }
                        assert(seq![name] + tail =~= head);
                        if index + 1 == count {
                            assert(tail =~= Seq::<Seq<char>>::empty());
                            assert(seq![name] + tail =~= seq![name]);
                        }
                    },
                }
            } else {
                assert(remaining_in(config, state) =~= Seq::<Seq<char>>::empty());
            }
        },
        _ => {
            assert(reported(said) + mirror_names(config, 0) =~= mirror_names(config, 0));
            if count == 0 {
                assert(mirror_names(config, 0) =~= Seq::<Seq<char>>::empty());
            }
        },
    }
}

proof fn entering_reports_no_end(root: RootConfigView, index: int)
    ensures
        reported(entering_notices(root, index)) == Seq::<Seq<char>>::empty(),
        no_setup_failure(entering_notices(root, index)),
{
    let entering = entering_notices(root, index);
    if entering.len() > 0 {
        assert(entering =~= seq![entering[0]]);
        reported_of_one(entering[0]);
    }
}

proof fn entered_has_all_to_report(root: RootConfigView, index: int, success: bool)
    requires
        root.fits(),
        0 <= index <= root.configurations.len(),
    ensures
        match enter_config(root, index, success) {
            RootNext::Continue(next) => remaining(root, next) == names_from(root, index),
            RootNext::Finished(_) => names_from(root, index) == Seq::<Seq<char>>::empty(),
        },
{
}

proof fn step_reports_in_order(root: RootConfigView, state: RootState, reply: ReplyView)
    requires
        root.fits(),
        no_setup_failure(root_notices(root, state, reply)),
    ensures
        match root_next(root, state, reply) {
            RootNext::Continue(next) => reported(root_notices(root, state, reply)) + remaining(
                root,
                next,
            ) == remaining(root, state),
            RootNext::Finished(_) => reported(root_notices(root, state, reply)) == remaining(
                root,
                state,
            ),
        },
{
    let said = root_notices(root, state, reply);
    let none = Seq::<Seq<char>>::empty();
    match state.phase {
        RootPhase::Config { index, state: inner } => {
            if index < root.configurations.len() {
                let config = root.configurations[index as int];
                let within = config_notices(config, inner, reply);
                let later = names_from(root, index + 1);
                config_step_reports_in_order(config, inner, reply);
                entering_reports_no_end(root, index + 1);
                match config_next(config, inner, reply) {
                    ConfigNextView::Continue(next) => {
                        assert(said =~= within);
                        assert(reported(said) + (remaining_in(config, next) + later) =~= (reported(
                            said,
                        ) + remaining_in(config, next)) + later);
                    },
                    ConfigNextView::Finished(Ok(all)) => {
                        reported_of_both(within, entering_notices(root, index + 1));
                        assert(reported(said) =~= reported(within));
                        entered_has_all_to_report(root, index + 1, state.success && all);
                        assert(reported(said) + none =~= reported(said));
                    },
                    ConfigNextView::Finished(Err(reason)) => {
                        let failed = NoticeView::ConfigurationError { name: config.name, reason };
                        let tail = seq![failed] + entering_notices(root, index + 1);
                        assert(said == within + tail);
                        assert(said[within.len() as int] == tail[0]);
                        assert(said[within.len() as int] is ConfigurationError);
                    },
                }
            }
        },
        _ => {
            entering_reports_no_end(root, 0);
            entered_has_all_to_report(root, 0, state.success);
            assert(none + names_from(root, 0) =~= names_from(root, 0));
            if reply is NotCreated && state.phase is Create {
                assert(said[0] is WorkspaceError);
            }
        },
    }
}

proof fn run_reports_in_order(root: RootConfigView, state: RootState, replies: Seq<ReplyView>)
    requires
        root.fits(),
        run_end(root, state, replies) is Some,
        no_setup_failure(run_notices(root, state, replies)),
    ensures
        reported(run_notices(root, state, replies)) == remaining(root, state),
    decreases replies.len(),
{
    let said = root_notices(root, state, replies[0]);
    match root_next(root, state, replies[0]) {
        RootNext::Finished(_) => {
            assert(run_notices(root, state, replies) =~= said);
            step_reports_in_order(root, state, replies[0]);
        },
        RootNext::Continue(next) => {
            let later = run_notices(root, next, replies.drop_first());
            no_setup_failure_of_both(said, later);
            step_reports_in_order(root, state, replies[0]);
            run_reports_in_order(root, next, replies.drop_first());
            reported_of_both(said, later);
        },
    }
}

/// A run that ends without a directory that could not be created has
/// reported the end of every mirror of every configuration, once each, in
/// the order of the configuration file: no mirror is passed over, whatever
/// became of the mirrors before it.
pub proof fn every_mirror_is_reported(root: RootConfigView, replies: Seq<ReplyView>)
    requires
        root.fits(),
        run_end(root, root_start(), replies) is Some,
        no_setup_failure(run_notices(root, root_start(), replies)),
    ensures
        reported(run_notices(root, root_start(), replies)) == names_from(root, 0),
{
    run_reports_in_order(root, root_start(), replies);
}

} // verus!
