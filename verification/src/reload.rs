//! The reload sequence: a signal where the platform delivers signals, a
//! stop followed by a start where it does not.

use crate::effect::{
    Completion, CoreError, CoreErrorView, Effect, EffectView, Outcome, OutcomeView, Platform, Step,
    StepView,
};
use crate::session::{ProcessManager, ProxyMode, Session};
use crate::start::{start_first, start_next, StartTask, StartTaskView};
use crate::stop::{stop_first, stop_next, StopTask};
use crate::text::text_of;
use vstd::prelude::*;
use vstd::string::StringExecFns;

verus! {

/// Which outcome a reload sequence waits for.
#[derive(Debug, PartialEq, Eq)]
pub enum ReloadTask {
    /// The engine is being signalled.
    Signalling,
    /// The live session is being stopped, to be started again with the
    /// configuration path and the mode that it was committed with.
    Stopping { stop: StopTask, config_path: String, mode: ProxyMode },
    /// The session is being started again.
    Starting { start: StartTask },
}

pub enum ReloadTaskView {
    Signalling,
    Stopping { stop: StopTask, config_path: Seq<char>, mode: ProxyMode },
    Starting { start: StartTaskView },
}

impl View for ReloadTask {
    type V = ReloadTaskView;

    open spec fn view(&self) -> ReloadTaskView {
        match *self {
            ReloadTask::Signalling => ReloadTaskView::Signalling,
            ReloadTask::Stopping { stop, config_path, mode } => ReloadTaskView::Stopping {
                stop,
                config_path: config_path@,
                mode,
            },
            ReloadTask::Starting { start } => ReloadTaskView::Starting { start: start@ },
        }
    }
}

/// The secret a reload signal is elevated with: the stored one in TUN
/// mode, empty or not, and none in system proxy mode.
pub open spec fn reload_secret(session: Session) -> Option<Seq<char>> {
    if session.mode == Some(ProxyMode::TunProxy) {
        session.secret
    } else {
        None
    }
}

/// The first step of a reload by signal. The engine of a TUN session runs
/// with privilege, so its signal is always elevated with the stored
/// secret; where none is stored, no signal is sent and the reload ends
/// with the request for the credential.
pub open spec fn reload_signal(session: Session) -> StepView<ReloadTaskView> {
    if session.mode == Some(ProxyMode::TunProxy) && session.secret.is_none() {
        StepView::Finish { result: Err(CoreErrorView::RequirePrivilege) }
    } else {
        StepView::Perform {
            task: ReloadTaskView::Signalling,
            effect: EffectView::SignalReload { elevation: reload_secret(session) },
        }
    }
}

/// The outcome of the signal command after it ran: done where it exited
/// with success, else failed with what it wrote to its error stream.
pub open spec fn signalled(success: bool, stderr: Seq<char>) -> OutcomeView {
    if success {
        OutcomeView::Done
    } else {
        OutcomeView::Failed { message: "Failed to reload config: "@ + stderr }
    }
}

/// The outcome of a signal command that could not be run.
pub open spec fn signal_unsent(elevated: bool, detail: Seq<char>) -> OutcomeView {
    OutcomeView::Failed {
        message: if elevated {
            "Failed to send SIGHUP signal with sudo: "@ + detail
        } else {
            "Failed to send SIGHUP signal: "@ + detail
        },
    }
}

/// A step of the start that a restart makes, as a step of the reload. A
/// start that failed is reported as a failed restart.
pub open spec fn reload_starting(step: StepView<StartTaskView>) -> StepView<ReloadTaskView> {
    match step {
        StepView::Perform { task, effect } => StepView::Perform {
            task: ReloadTaskView::Starting { start: task },
            effect,
        },
        StepView::Finish { result: Ok(_) } => StepView::Finish { result: Ok(Completion::Restarted) },
        StepView::Finish { result: Err(error) } => StepView::Finish {
            result: Err(CoreErrorView::Restart { message: error.message() }),
        },
    }
}

/// A step of the stop that a restart makes, as a step of the reload, and
/// the record after it. A failed stop ends the reload; a finished one is
/// followed by the start on the record as it then is.
pub open spec fn reload_stopping(
    step: StepView<StopTask>,
    session: Session,
    config_path: Seq<char>,
    mode: ProxyMode,
    platform: Platform,
) -> (StepView<ReloadTaskView>, Session) {
    match step {
        StepView::Perform { task, effect } => (
            StepView::Perform {
                task: ReloadTaskView::Stopping { stop: task, config_path, mode },
                effect,
            },
            session,
        ),
        StepView::Finish { result: Err(error) } => (
            StepView::Finish { result: Err(error) },
            session,
        ),
        StepView::Finish { result: Ok(_) } => (
            reload_starting(start_first(session, config_path, mode, platform)),
            Session::empty(),
        ),
    }
}

/// The first step of a reload asked for with `is_tun`, and the record after
/// it. Without a live session, or with a live mode other than the one asked
/// for, the reload ends at once and nothing is touched. Where signals are
/// delivered the engine is signalled; elsewhere it is stopped and started
/// again.
pub open spec fn reload_first(session: Session, is_tun: bool, platform: Platform) -> (
    StepView<ReloadTaskView>,
    Session,
) {
    match session.mode {
        None => (StepView::Finish { result: Err(CoreErrorView::NoRunningProcess) }, session),
        Some(mode) => if mode != ProxyMode::of_flag(is_tun) {
            (StepView::Finish { result: Err(CoreErrorView::ModeMismatch) }, session)
        } else if platform.posix() {
            (reload_signal(session), session)
        } else {
            match session.config_path {
                Some(config_path) => reload_stopping(
                    stop_first(session.snapshot(), platform),
                    Session::empty(),
                    config_path,
                    mode,
                    platform,
                ),
                None => (
                    StepView::Finish { result: Err(CoreErrorView::NoRunningProcess) },
                    session,
                ),
            }
        },
    }
}

/// The step after `outcome` was handed to `task`, and the record after it.
pub open spec fn reload_next(
    task: ReloadTaskView,
    session: Session,
    outcome: OutcomeView,
    platform: Platform,
) -> (StepView<ReloadTaskView>, Session) {
    match task {
        ReloadTaskView::Signalling => (
            match outcome {
                OutcomeView::Failed { message } => StepView::Finish {
                    result: Err(CoreErrorView::Signal { message }),
                },
                _ => StepView::Finish { result: Ok(Completion::Reloaded) },
            },
            session,
        ),
        ReloadTaskView::Stopping { stop, config_path, mode } => reload_stopping(
            stop_next(stop, outcome, platform),
            session,
            config_path,
            mode,
            platform,
        ),
        ReloadTaskView::Starting { start } => {
            let (step, after) = start_next(start, session, outcome, platform);
            (reload_starting(step), after)
        },
    }
}

fn starting_step(step: Step<StartTask>) -> (lifted: Step<ReloadTask>)
    ensures
        lifted@ == reload_starting(step@),
{
    match step {
        Step::Perform { task, effect } => Step::Perform {
            task: ReloadTask::Starting { start: task },
            effect,
        },
        Step::Finish { result: Ok(_) } => Step::Finish { result: Ok(Completion::Restarted) },
        Step::Finish { result: Err(error) } => Step::Finish {
            result: Err(CoreError::Restart { message: error.message() }),
        },
    }
}

fn stopping_step(
    step: Step<StopTask>,
    manager: &mut ProcessManager,
    config_path: String,
    mode: ProxyMode,
    platform: Platform,
) -> (lifted: Step<ReloadTask>)
    ensures
        (lifted@, final(manager)@) == reload_stopping(
            step@,
            old(manager)@,
            config_path@,
            mode,
            platform,
        ),
{
    match step {
        Step::Perform { task, effect } => Step::Perform {
            task: ReloadTask::Stopping { stop: task, config_path, mode },
            effect,
        },
        Step::Finish { result: Err(error) } => Step::Finish { result: Err(error) },
        Step::Finish { result: Ok(_) } => starting_step(
            StartTask::begin(manager, config_path, mode, platform),
        ),
    }
}

fn signal_secret(manager: &ProcessManager) -> (secret: Option<String>)
    ensures
        text_of(secret) == reload_secret(manager@),
{
    match manager.current_mode() {
        Some(ProxyMode::TunProxy) => manager.secret(),
        _ => None,
    }
}

fn signal_step(manager: &ProcessManager) -> (step: Step<ReloadTask>)
    ensures
        step@ == reload_signal(manager@),
{
    let tun = match manager.current_mode() {
        Some(live) => live.is_tun(),
        None => false,
    };
    let elevation = signal_secret(manager);
    if tun && elevation.is_none() {
        Step::Finish { result: Err(CoreError::RequirePrivilege) }
    } else {
        Step::Perform { task: ReloadTask::Signalling, effect: Effect::SignalReload { elevation } }
    }
}

/// Reads what came of the signal command after it ran; `stderr` is what
/// it wrote to its error stream.
pub fn reload_signalled(success: bool, stderr: &str) -> (outcome: Outcome)
    ensures
        outcome@ == signalled(success, stderr@),
{
    if success {
        Outcome::Done
    } else {
        Outcome::Failed { message: String::from_str("Failed to reload config: ").concat(stderr) }
    }
}

/// The outcome of a signal command that could not be run; `elevated` says
/// whether it was to run with privilege, `detail` why it did not run.
pub fn reload_signal_unsent(elevated: bool, detail: &str) -> (outcome: Outcome)
    ensures
        outcome@ == signal_unsent(elevated, detail@),
{
    let message = if elevated {
        String::from_str("Failed to send SIGHUP signal with sudo: ").concat(detail)
    } else {
        String::from_str("Failed to send SIGHUP signal: ").concat(detail)
    };
    Outcome::Failed { message }
}

impl ReloadTask {
    /// Begins a reload asked for with `is_tun`.
    pub fn begin(manager: &mut ProcessManager, is_tun: bool, platform: Platform) -> (step: Step<
        ReloadTask,
    >)
        ensures
            (step@, final(manager)@) == reload_first(old(manager)@, is_tun, platform),
    {
        match manager.current_mode() {
            None => Step::Finish { result: Err(CoreError::NoRunningProcess) },
            Some(mode) => {
                let asked = ProxyMode::from_flag(is_tun);
                if mode.is_tun() != asked.is_tun() {
                    Step::Finish { result: Err(CoreError::ModeMismatch) }
                } else if platform.is_posix() {
                    signal_step(manager)
                } else {
                    match manager.config_path() {
                        Some(config_path) => {
                            let stopping = StopTask::begin(manager, platform);
                            stopping_step(stopping, manager, config_path, mode, platform)
                        },
                        None => Step::Finish { result: Err(CoreError::NoRunningProcess) },
                    }
                }
            },
        }
    }

    /// Goes on with the reload after the effect asked for last came out as
    /// `outcome`.
    pub fn resume(self, manager: &mut ProcessManager, outcome: Outcome, platform: Platform) -> (step:
        Step<ReloadTask>)
        ensures
            (step@, final(manager)@) == reload_next(self@, old(manager)@, outcome@, platform),
    {
        match self {
            ReloadTask::Signalling => match outcome {
                Outcome::Failed { message } => Step::Finish {
                    result: Err(CoreError::Signal { message }),
                },
                _ => Step::Finish { result: Ok(Completion::Reloaded) },
            },
            ReloadTask::Stopping { stop, config_path, mode } => {
                let stopping = stop.resume(outcome, platform);
                stopping_step(stopping, manager, config_path, mode, platform)
            },
            ReloadTask::Starting { start } => starting_step(start.resume(manager, outcome, platform)),
        }
    }
}

} // verus!
