//! The whole run: make sure of the workspace, then work through every
//! configuration, whatever becomes of the others.

use vstd::prelude::*;
use crate::config::{RootConfig, RootConfigView};
use crate::configuration::{
    begin_config, config_next, config_notices, config_request, config_request_of, config_start,
    process_config, ConfigNext, ConfigNextView, ConfigState,
};
use crate::exchange::{Reply, ReplyView, Request, RequestView};
use crate::notice::{notice_views, Notice, NoticeView};

verus! {

/// Which request of a run is pending.
#[derive(Clone, Copy, Debug, PartialEq, Eq, Structural)]
pub enum RootPhase {
    /// Asked whether the workspace directory is there.
    Probe,
    /// The workspace directory is being created.
    Create,
    /// The configuration at `index` is in `state`.
    Config { index: usize, state: ConfigState },
}

/// Where a run stands.
#[derive(Clone, Copy, Debug, PartialEq, Eq, Structural)]
pub struct RootState {
    pub phase: RootPhase,
    /// Whether every configuration that has ended so far ended with all of its
    /// mirrors in success.
    pub success: bool,
}

/// What follows a step of a run.
#[derive(Clone, Copy, Debug, PartialEq, Eq, Structural)]
pub enum RootNext {
    /// The run goes on in this state.
    Continue(RootState),
    /// The run has ended, in complete success or not.
    Finished(bool),
}

/// The state in which a run begins.
pub open spec fn root_start() -> RootState {
    RootState { phase: RootPhase::Probe, success: true }
}

/// What follows when the configuration at `index` is next: its first state,
/// or the end of the run where no configuration is left.
pub open spec fn enter_config(root: RootConfigView, index: int, success: bool) -> RootNext {
    if 0 <= index < root.configurations.len() {
        RootNext::Continue(
            RootState {
                phase: RootPhase::Config { index: index as usize, state: config_start() },
                success,
            },
        )
    } else {
        RootNext::Finished(success)
    }
}

/// What is said when the configuration at `index` is next: that its work
/// begins, if there is such a configuration.
pub open spec fn entering_notices(root: RootConfigView, index: int) -> Seq<NoticeView> {
    if 0 <= index < root.configurations.len() {
        seq![NoticeView::Processing { name: root.configurations[index].name }]
    } else {
        seq![]
    }
}

/// The state, or the end, that follows `state` once `reply` is in.
///
/// The workspace is created if it is not there, and a failure to create it
/// ends the run in failure at once. The configurations then run one after the
/// other, in the order of the configuration file: when one ends, however it
/// ends, the next one begins. The run ends in success only if every
/// configuration ended with all of its mirrors in success.
pub open spec fn root_next(root: RootConfigView, state: RootState, reply: ReplyView) -> RootNext {
    match state.phase {
        RootPhase::Probe => match reply {
            ReplyView::Answer(true) => enter_config(root, 0, state.success),
            ReplyView::Answer(false) => RootNext::Continue(
                RootState { phase: RootPhase::Create, success: state.success },
            ),
            _ => RootNext::Continue(state),
        },
        RootPhase::Create => match reply {
            ReplyView::Created => enter_config(root, 0, state.success),
            ReplyView::NotCreated(_) => RootNext::Finished(false),
            _ => RootNext::Continue(state),
        },
        RootPhase::Config { index, state: inner } => if index < root.configurations.len() {
            match config_next(root.configurations[index as int], inner, reply) {
                ConfigNextView::Continue(inner) => RootNext::Continue(
                    RootState {
                        phase: RootPhase::Config { index, state: inner },
                        success: state.success,
                    },
                ),
                ConfigNextView::Finished(Ok(all)) => enter_config(
                    root,
                    index + 1,
                    state.success && all,
                ),
                ConfigNextView::Finished(Err(_)) => enter_config(root, index + 1, false),
            }
        } else {
            RootNext::Finished(state.success)
        },
    }
}

/// What a step of a run says: what the work on the configuration says, that a
/// directory could not be created, and that the next configuration begins.
pub open spec fn root_notices(root: RootConfigView, state: RootState, reply: ReplyView) -> Seq<
    NoticeView,
> {
    match state.phase {
        RootPhase::Probe => match reply {
            ReplyView::Answer(true) => entering_notices(root, 0),
            _ => seq![],
        },
        RootPhase::Create => match reply {
            ReplyView::Created => entering_notices(root, 0),
            ReplyView::NotCreated(reason) => seq![NoticeView::WorkspaceError { reason }],
            _ => seq![],
        },
        RootPhase::Config { index, state: inner } => if index < root.configurations.len() {
            let config = root.configurations[index as int];
            config_notices(config, inner, reply) + match config_next(config, inner, reply) {
                ConfigNextView::Continue(_) => seq![],
                ConfigNextView::Finished(Ok(_)) => entering_notices(root, index + 1),
                ConfigNextView::Finished(Err(reason)) => seq![
                    NoticeView::ConfigurationError { name: config.name, reason },
                ] + entering_notices(root, index + 1),
            }
        } else {
            seq![]
        },
    }
}

/// The request that is pending in `state`; `None` where the state names no
/// configuration, or no mirror of its configuration.
pub open spec fn root_request_of(root: RootConfigView, state: RootState) -> Option<RequestView> {
    match state.phase {
        RootPhase::Probe => Some(RequestView::IsDir(root.workspace)),
        RootPhase::Create => Some(RequestView::CreateDirAll(root.workspace)),
        RootPhase::Config { index, state: inner } => if index < root.configurations.len() {
            config_request_of(root.configurations[index as int], root.workspace, inner)
        } else {
            None
        },
    }
}

/// The state in which a run begins.
pub fn start() -> (state: RootState)
    ensures
        state == root_start(),
{
    RootState { phase: RootPhase::Probe, success: true }
}

/// The request to perform in `state` of a run on `root_config`.
pub fn root_request(root_config: &RootConfig, state: RootState) -> (request: Option<Request>)
    ensures
        request.is_some() == root_request_of(root_config@, state).is_some(),
        request.is_some() ==> request.unwrap()@ == root_request_of(root_config@, state).unwrap(),
{
    match state.phase {
        RootPhase::Probe => Some(Request::IsDir(root_config.workspace.clone())),
        RootPhase::Create => Some(Request::CreateDirAll(root_config.workspace.clone())),
        RootPhase::Config { index, state: inner } => if index < root_config.configurations.len() {
            config_request(
                &root_config.configurations[index],
                root_config.workspace.as_str(),
                inner,
            )
        } else {
            None
        },
    }
}

/// Goes on to the configuration at `index`, and says that its work begins, or
/// ends the run where none is left.
fn start_config(root_config: &RootConfig, index: usize, success: bool, notices: &mut Vec<Notice>) -> (next:
    RootNext)
    ensures
        next == enter_config(root_config@, index as int, success),
        notice_views(final(notices)@) == notice_views(old(notices)@) + entering_notices(
            root_config@,
            index as int,
        ),
{
    let ghost before = notice_views(notices@);
    if index < root_config.configurations.len() {
        let state = begin_config(&root_config.configurations[index], notices);
        assert(notice_views(notices@) =~= before + entering_notices(root_config@, index as int));
        RootNext::Continue(RootState { phase: RootPhase::Config { index, state }, success })
    } else {
        assert(before =~= before + entering_notices(root_config@, index as int));
        RootNext::Finished(success)
    }
}

/// One step of a run on `root_config`: takes the reply to the request of
/// `state` and gives what follows. What there is to tell the operator is added
/// to `notices`.
///
/// A configuration that fails does not stop the run: the next configuration
/// is taken up all the same. The run ends in success only if the workspace is
/// there and every mirror of every configuration ended in success.
pub fn process_root_config(
    root_config: &RootConfig,
    state: RootState,
    reply: Reply,
    notices: &mut Vec<Notice>,
) -> (next: RootNext)
    ensures
        next == root_next(root_config@, state, reply@),
        notice_views(final(notices)@) == notice_views(old(notices)@) + root_notices(
            root_config@,
            state,
            reply@,
        ),
{
    let ghost before = notice_views(notices@);
    match state.phase {
        RootPhase::Probe => match reply {
            Reply::Answer(true) => start_config(root_config, 0, state.success, notices),
            Reply::Answer(false) => {
                assert(before =~= before + root_notices(root_config@, state, reply@));
                RootNext::Continue(RootState { phase: RootPhase::Create, success: state.success })
            },
            _ => {
                assert(before =~= before + root_notices(root_config@, state, reply@));
                RootNext::Continue(state)
            },
        },
        RootPhase::Create => match reply {
            Reply::Created => start_config(root_config, 0, state.success, notices),
            Reply::NotCreated(reason) => {
                notices.push(Notice::WorkspaceError { reason });
                assert(notice_views(notices@) =~= before + root_notices(
                    root_config@,
                    state,
                    reply@,
                ));
                RootNext::Finished(false)
            },
            _ => {
                assert(before =~= before + root_notices(root_config@, state, reply@));
                RootNext::Continue(state)
            },
        },
        RootPhase::Config { index, state: inner } => {
            if index >= root_config.configurations.len() {
                assert(before =~= before + root_notices(root_config@, state, reply@));
                return RootNext::Finished(state.success);
            }
            let config = &root_config.configurations[index];
            assert(config@ == root_config@.configurations[index as int]);
            let ghost said = config_notices(config@, inner, reply@);
            match process_config(config, inner, reply, notices) {
                ConfigNext::Continue(inner) => {
                    assert(notice_views(notices@) =~= before + (said + seq![]));
                    RootNext::Continue(
                        RootState {
                            phase: RootPhase::Config { index, state: inner },
                            success: state.success,
                        },
                    )
                },
                ConfigNext::Finished(Ok(all)) => {
                    let next = start_config(root_config, index + 1, state.success && all, notices);
                    assert(notice_views(notices@) =~= before + (said + entering_notices(
                        root_config@,
                        index + 1,
                    )));
                    next
                },
                ConfigNext::Finished(Err(reason)) => {
                    let ghost failed = NoticeView::ConfigurationError {
                        name: config@.name,
                        reason: reason@,
                    };
                    let ghost reported = notice_views(notices@);
                    notices.push(Notice::ConfigurationError { name: config.name.clone(), reason });
                    assert(notice_views(notices@) =~= reported.push(failed));
                    let next = start_config(root_config, index + 1, false, notices);
                    assert(notice_views(notices@) =~= before + (said + (seq![failed]
                        + entering_notices(root_config@, index + 1))));
                    next
                },
            }
        },
    }
}

/// The exit status of the process for the end of a run: 0 for complete
/// success, 1 otherwise.
pub fn exit_code(success: bool) -> (code: i32)
    ensures
        code == if success {
            0i32
        } else {
            1i32
        },
{
    if success {
        0
    } else {
        1
    }
}

} // verus!
