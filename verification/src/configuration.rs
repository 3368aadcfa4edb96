//! The work on one configuration: make sure of its directory, then mirror
//! each of its repositories, whatever becomes of the others.

use vstd::prelude::*;
use crate::config::{Configuration, ConfigurationView};
use crate::exchange::{Reply, ReplyView, Request, RequestView};
use crate::mirror::{
    mirror_next, mirror_notices, mirror_repo, mirror_request, mirror_request_of, MirrorNext, Stage,
};
use crate::notice::{notice_views, Notice, NoticeView};
use crate::outcome::MirrorResult;
use crate::path::{join, joined_path};

verus! {

/// Which request of a configuration is pending.
#[derive(Clone, Copy, Debug, PartialEq, Eq, Structural)]
pub enum ConfigPhase {
    /// Asked whether the configuration's directory is there.
    Probe,
    /// The configuration's directory is being created.
    Create,
    /// The mirror at `index` is at `stage`.
    Mirror { index: usize, stage: Stage },
}

/// Where the work on a configuration stands.
#[derive(Clone, Copy, Debug, PartialEq, Eq, Structural)]
pub struct ConfigState {
    pub phase: ConfigPhase,
    /// Whether every mirror that has ended so far ended in success.
    pub success: bool,
}

/// What follows a step of the work on a configuration.
#[derive(Debug, PartialEq, Eq)]
pub enum ConfigNext {
    /// The work goes on in this state.
    Continue(ConfigState),
    /// The work has ended: with whether every mirror succeeded, or, where the
    /// directory could not be created, with the reason.
    Finished(Result<bool, String>),
}

/// The mathematical value of a [`ConfigNext`].
pub enum ConfigNextView {
    Continue(ConfigState),
    Finished(Result<bool, Seq<char>>),
}

impl View for ConfigNext {
    type V = ConfigNextView;

    open spec fn view(&self) -> ConfigNextView {
        match self {
            ConfigNext::Continue(state) => ConfigNextView::Continue(*state),
            ConfigNext::Finished(Ok(success)) => ConfigNextView::Finished(Ok(*success)),
            ConfigNext::Finished(Err(reason)) => ConfigNextView::Finished(Err(reason@)),
        }
    }
}

/// The state in which the work on a configuration begins.
pub open spec fn config_start() -> ConfigState {
    ConfigState { phase: ConfigPhase::Probe, success: true }
}

/// What follows when the mirror at `index` is next: its first stage, or the
/// end of the configuration where no mirror is left.
pub open spec fn enter_mirror(config: ConfigurationView, index: int, success: bool) -> ConfigNextView {
    if 0 <= index < config.mirrors.len() {
        ConfigNextView::Continue(
            ConfigState {
                phase: ConfigPhase::Mirror { index: index as usize, stage: Stage::Probe },
                success,
            },
        )
    } else {
        ConfigNextView::Finished(Ok(success))
    }
}

/// The state, or the end, that follows `state` once `reply` is in.
///
/// The directory is created if it is not there, and a failure to create it
/// ends the work with the reason. The mirrors then run one after the other, in
/// the order of the configuration: when one ends, however it ends, the next
/// one begins. The end result says whether all of them ended in success.
pub open spec fn config_next(config: ConfigurationView, state: ConfigState, reply: ReplyView) -> ConfigNextView {
    match state.phase {
        ConfigPhase::Probe => match reply {
            ReplyView::Answer(true) => enter_mirror(config, 0, state.success),
            ReplyView::Answer(false) => ConfigNextView::Continue(
                ConfigState { phase: ConfigPhase::Create, success: state.success },
            ),
            _ => ConfigNextView::Continue(state),
        },
        ConfigPhase::Create => match reply {
            ReplyView::Created => enter_mirror(config, 0, state.success),
            ReplyView::NotCreated(reason) => ConfigNextView::Finished(Err(reason)),
            _ => ConfigNextView::Continue(state),
        },
        ConfigPhase::Mirror { index, stage } => if index < config.mirrors.len() {
            match mirror_next(stage, reply) {
                MirrorNext::Continue(stage) => ConfigNextView::Continue(
                    ConfigState {
                        phase: ConfigPhase::Mirror { index, stage },
                        success: state.success,
                    },
                ),
                MirrorNext::Finished(result) => enter_mirror(
                    config,
                    index + 1,
                    state.success && result == MirrorResult::Success,
                ),
            }
        } else {
            ConfigNextView::Finished(Ok(state.success))
        },
    }
}

/// What a step of the work on a configuration says: what the mirroring says,
/// and, when a mirror ends, how it ended.
pub open spec fn config_notices(config: ConfigurationView, state: ConfigState, reply: ReplyView) -> Seq<
    NoticeView,
> {
    match state.phase {
        ConfigPhase::Mirror { index, stage } => if index < config.mirrors.len() {
            mirror_notices(stage, reply) + match mirror_next(stage, reply) {
                MirrorNext::Continue(_) => seq![],
                MirrorNext::Finished(result) => seq![
                    NoticeView::Mirrored { name: config.mirrors[index as int].name, result },
                ],
            }
        } else {
            seq![]
        },
        _ => seq![],
    }
}

/// The request that is pending in `state`, for a configuration whose
/// directory lies in `workspace`; `None` where the state names no mirror of
/// the configuration.
pub open spec fn config_request_of(
    config: ConfigurationView,
    workspace: Seq<char>,
    state: ConfigState,
) -> Option<RequestView> {
    let config_path = joined_path(workspace, config.name);
    match state.phase {
        ConfigPhase::Probe => Some(RequestView::IsDir(config_path)),
        ConfigPhase::Create => Some(RequestView::CreateDirAll(config_path)),
        ConfigPhase::Mirror { index, stage } => if index < config.mirrors.len() {
            let mirror = config.mirrors[index as int];
            Some(mirror_request_of(mirror.name, mirror.src, mirror.dest, config_path, stage))
        } else {
            None
        },
    }
}

/// Begins the work on `config`: says so, and gives the first state.
pub fn begin_config(config: &Configuration, notices: &mut Vec<Notice>) -> (state: ConfigState)
    ensures
        state == config_start(),
        notice_views(final(notices)@) == notice_views(old(notices)@).push(
            NoticeView::Processing { name: config@.name },
        ),
{
    let ghost before = notice_views(notices@);
    notices.push(Notice::Processing { name: config.name.clone() });
    assert(notice_views(notices@) =~= before.push(NoticeView::Processing { name: config@.name }));
    ConfigState { phase: ConfigPhase::Probe, success: true }
}

/// The request to perform in `state` of the work on `config`, whose directory
/// lies in `workspace`.
pub fn config_request(config: &Configuration, workspace: &str, state: ConfigState) -> (request:
    Option<Request>)
    ensures
        request.is_some() == config_request_of(config@, workspace@, state).is_some(),
        request.is_some() ==> request.unwrap()@ == config_request_of(
            config@,
            workspace@,
            state,
        ).unwrap(),
{
    let config_path = join(workspace, config.name.as_str());
    match state.phase {
        ConfigPhase::Probe => Some(Request::IsDir(config_path)),
        ConfigPhase::Create => Some(Request::CreateDirAll(config_path)),
        ConfigPhase::Mirror { index, stage } => if index < config.mirrors.len() {
            let mirror = &config.mirrors[index];
            Some(
                mirror_request(
                    mirror.name.as_str(),
                    mirror.src.as_str(),
                    mirror.dest.as_str(),
                    config_path.as_str(),
                    stage,
                ),
            )
        } else {
            None
        },
    }
}

/// Goes on to the mirror at `index`, or ends the work where none is left.
fn start_mirror(config: &Configuration, index: usize, success: bool) -> (next: ConfigNext)
    ensures
        next@ == enter_mirror(config@, index as int, success),
{
    if index < config.mirrors.len() {
        ConfigNext::Continue(
            ConfigState { phase: ConfigPhase::Mirror { index, stage: Stage::Probe }, success },
        )
    } else {
        ConfigNext::Finished(Ok(success))
    }
}

/// One step of the work on `config`: takes the reply to the request of
/// `state` and gives what follows. What there is to tell the operator is added
/// to `notices`: one notice for each mirror that ends.
///
/// A mirror that fails does not stop the work: the next mirror is taken up all
/// the same, and the end result is true only if every mirror ended in success.
pub fn process_config(
    config: &Configuration,
    state: ConfigState,
    reply: Reply,
    notices: &mut Vec<Notice>,
) -> (next: ConfigNext)
    ensures
        next@ == config_next(config@, state, reply@),
        notice_views(final(notices)@) == notice_views(old(notices)@) + config_notices(
            config@,
            state,
            reply@,
        ),
{
    let ghost before = notice_views(notices@);
    match state.phase {
        ConfigPhase::Probe => {
            assert(before =~= before + config_notices(config@, state, reply@));
            match reply {
                Reply::Answer(true) => start_mirror(config, 0, state.success),
                Reply::Answer(false) => ConfigNext::Continue(
                    ConfigState { phase: ConfigPhase::Create, success: state.success },
                ),
                _ => ConfigNext::Continue(state),
            }
        },
        ConfigPhase::Create => {
            assert(before =~= before + config_notices(config@, state, reply@));
            match reply {
                Reply::Created => start_mirror(config, 0, state.success),
                Reply::NotCreated(reason) => ConfigNext::Finished(Err(reason)),
                _ => ConfigNext::Continue(state),
            }
        },
        ConfigPhase::Mirror { index, stage } => {
            if index >= config.mirrors.len() {
                assert(before =~= before + config_notices(config@, state, reply@));
                return ConfigNext::Finished(Ok(state.success));
            }
            let ghost said = mirror_notices(stage, reply@);
            match mirror_repo(stage, reply, notices) {
                MirrorNext::Continue(stage) => {
                    assert(notice_views(notices@) =~= before + (said + seq![]));
                    ConfigNext::Continue(
                        ConfigState {
                            phase: ConfigPhase::Mirror { index, stage },
                            success: state.success,
                        },
                    )
                },
                MirrorNext::Finished(result) => {
                    let name = config.mirrors[index].name.clone();
                    assert(name@ == config@.mirrors[index as int].name);
                    let ghost reported = notice_views(notices@);
                    notices.push(Notice::Mirrored { name, result });
                    assert(reported == before + said);
                    let ghost ended = NoticeView::Mirrored {
                        name: config@.mirrors[index as int].name,
                        result,
                    };
                    assert(notice_views(notices@) =~= reported.push(ended));
                    assert(reported.push(ended) =~= before + (said + seq![ended]));
                    let success = match result {
                        MirrorResult::Success => state.success,
                        _ => false,
                    };
                    start_mirror(config, index + 1, success)
                },
            }
        },
    }
}

} // verus!
