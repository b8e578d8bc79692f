//! The stop sequence: drain the record, reverse the network configuration,
//! terminate the managed process, let the ports settle, notify.

use crate::effect::{
    Completion, CoreError, CoreErrorView, Effect, EffectView, Outcome, OutcomeView, Platform, Step,
    StepView,
};
use crate::session::{ProcessHandle, ProcessManager, ProxyMode, Session, SnapshotView};
use vstd::prelude::*;

verus! {

/// How long a stop waits for released ports to settle, in milliseconds.
pub const STOP_GRACE_MILLIS: u64 = 500;

/// A stop sequence between two effects: which outcome it waits for.
#[derive(Clone, Copy, Debug, PartialEq, Eq, Structural)]
pub enum StopTask {
    /// The proxy settings are being unset; a failure does not abort.
    Network { child: Option<ProcessHandle> },
    /// The elevated engine is being killed; a failure is fatal.
    Privileged { child: Option<ProcessHandle> },
    /// The managed process was asked to terminate.
    Graceful { handle: ProcessHandle },
    /// The managed process is being terminated by force.
    Forced,
    /// The grace period is running.
    Settle,
    /// The notification is being emitted.
    Announce,
}

impl View for StopTask {
    type V = StopTask;

    open spec fn view(&self) -> StopTask {
        *self
    }
}

/// The step that terminates the managed process, if one was retained, and
/// else starts the grace period. With signals the process is first asked.
pub open spec fn stop_terminate(child: Option<ProcessHandle>, platform: Platform) -> StepView<
    StopTask,
> {
    match child {
        Some(handle) => if platform.posix() {
            StepView::Perform {
                task: StopTask::Graceful { handle },
                effect: EffectView::Terminate { handle },
            }
        } else {
            StepView::Perform { task: StopTask::Forced, effect: EffectView::Kill { handle } }
        },
        None => stop_settle(),
    }
}

/// The step that starts the grace period.
pub open spec fn stop_settle() -> StepView<StopTask> {
    StepView::Perform {
        task: StopTask::Settle,
        effect: EffectView::Sleep { millis: STOP_GRACE_MILLIS },
    }
}

/// The first step of a stop, from what it found in the record. In system
/// proxy mode the settings are unset; in TUN mode the elevated engine is
/// killed with the stored secret, where one is stored; with no session the
/// stop goes straight on.
pub open spec fn stop_first(taken: SnapshotView, platform: Platform) -> StepView<StopTask> {
    match taken.mode {
        Some(ProxyMode::SystemProxy) => StepView::Perform {
            task: StopTask::Network { child: taken.child },
            effect: EffectView::UnsetProxy,
        },
        Some(ProxyMode::TunProxy) => match taken.secret {
            Some(secret) => StepView::Perform {
                task: StopTask::Privileged { child: taken.child },
                effect: EffectView::StopTun { secret },
            },
            None => stop_terminate(taken.child, platform),
        },
        None => stop_terminate(taken.child, platform),
    }
}

/// The step after `outcome` was handed to `task`.
pub open spec fn stop_next(task: StopTask, outcome: OutcomeView, platform: Platform) -> StepView<
    StopTask,
> {
    match task {
        StopTask::Network { child } => stop_terminate(child, platform),
        StopTask::Privileged { child } => match outcome {
            OutcomeView::Failed { message } => StepView::Finish {
                result: Err(CoreErrorView::Privilege { message }),
            },
            _ => stop_terminate(child, platform),
        },
        StopTask::Graceful { handle } => if outcome.failed() {
            StepView::Perform { task: StopTask::Forced, effect: EffectView::Kill { handle } }
        } else {
            stop_settle()
        },
        StopTask::Forced => match outcome {
            OutcomeView::Failed { message } => StepView::Finish {
                result: Err(CoreErrorView::Signal { message }),
            },
            _ => stop_settle(),
        },
        StopTask::Settle => StepView::Perform {
            task: StopTask::Announce,
            effect: EffectView::Notify,
        },
        StopTask::Announce => StepView::Finish { result: Ok(Completion::Stopped) },
    }
}

/// The outcome of the command that kills the elevated engine: done where
/// it was run and exited with success, and failed with `detail` in every
/// other case, which ends the stop.
pub open spec fn tun_stopped(launched: bool, success: bool, detail: Seq<char>) -> OutcomeView {
    if launched && success {
        OutcomeView::Done
    } else {
        OutcomeView::Failed { message: detail }
    }
}

/// Reads what came of the command that kills the elevated engine.
pub fn stop_tun_outcome(launched: bool, success: bool, detail: String) -> (outcome: Outcome)
    ensures
        outcome@ == tun_stopped(launched, success, detail@),
{
    if launched && success {
        Outcome::Done
    } else {
        Outcome::Failed { message: detail }
    }
}

fn terminate_step(child: Option<ProcessHandle>, platform: Platform) -> (step: Step<StopTask>)
    ensures
        step@ == stop_terminate(child, platform),
{
    match child {
        Some(handle) => {
            if platform.is_posix() {
                Step::Perform {
                    task: StopTask::Graceful { handle },
                    effect: Effect::Terminate { handle },
                }
            } else {
                Step::Perform { task: StopTask::Forced, effect: Effect::Kill { handle } }
            }
        },
        None => settle_step(),
    }
}

fn settle_step() -> (step: Step<StopTask>)
    ensures
        step@ == stop_settle(),
{
    Step::Perform { task: StopTask::Settle, effect: Effect::Sleep { millis: STOP_GRACE_MILLIS } }
}

impl StopTask {
    /// Begins a stop: empties the record in one critical section and says
    /// what to undo first. The record is not touched again by this stop.
    pub fn begin(manager: &mut ProcessManager, platform: Platform) -> (step: Step<StopTask>)
        ensures
            final(manager)@ == Session::empty(),
            step@ == stop_first(old(manager)@.snapshot(), platform),
    {
        let taken = manager.snapshot_and_clear();
        match taken.mode {
            Some(ProxyMode::SystemProxy) => Step::Perform {
                task: StopTask::Network { child: taken.child },
                effect: Effect::UnsetProxy,
            },
            Some(ProxyMode::TunProxy) => match taken.secret {
                Some(secret) => Step::Perform {
                    task: StopTask::Privileged { child: taken.child },
                    effect: Effect::StopTun { secret },
                },
                None => terminate_step(taken.child, platform),
            },
            None => terminate_step(taken.child, platform),
        }
    }

    /// Goes on with the stop after the effect asked for last came out as
    /// `outcome`.
    pub fn resume(self, outcome: Outcome, platform: Platform) -> (step: Step<StopTask>)
        ensures
            step@ == stop_next(self, outcome@, platform),
    {
        match self {
            StopTask::Network { child } => terminate_step(child, platform),
            StopTask::Privileged { child } => match outcome {
                Outcome::Failed { message } => Step::Finish {
                    result: Err(CoreError::Privilege { message }),
                },
                _ => terminate_step(child, platform),
            },
            StopTask::Graceful { handle } => match outcome {
                Outcome::Failed { .. } => Step::Perform {
                    task: StopTask::Forced,
                    effect: Effect::Kill { handle },
                },
                _ => settle_step(),
            },
            StopTask::Forced => match outcome {
                Outcome::Failed { message } => Step::Finish {
                    result: Err(CoreError::Signal { message }),
                },
                _ => settle_step(),
            },
            StopTask::Settle => Step::Perform { task: StopTask::Announce, effect: Effect::Notify },
            StopTask::Announce => Step::Finish { result: Ok(Completion::Stopped) },
        }
    }
}

} // verus!
