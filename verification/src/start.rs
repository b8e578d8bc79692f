//! The start sequence: stop what is live, resolve the credential, spawn the
//! engine, commit the session, apply the network configuration and roll
//! back if that fails, wait for the engine to warm up, notify.

use crate::effect::{
    Completion, CoreError, CoreErrorView, Effect, EffectView, Outcome, OutcomeView, Platform, Step,
    StepView,
};
use crate::privilege::{get_password_for_mode, needs_password, requires_password, resolved_password};
use crate::session::{ProcessHandle, ProcessManager, ProxyMode, Session};
use crate::stop::{stop_first, stop_next, StopTask};
use vstd::prelude::*;

verus! {

/// How long a start waits for a managed engine to open its control port,
/// in milliseconds.
pub const MANAGED_WARM_UP_MILLIS: u64 = 1500;

/// The same for an engine that was started without a handle.
pub const UNMANAGED_WARM_UP_MILLIS: u64 = 1000;

/// Which outcome a start sequence waits for.
#[derive(Debug, PartialEq, Eq)]
pub enum StartPhase {
    /// The session that was live is being stopped.
    Draining { stop: StopTask },
    /// The credential store was asked.
    Credential,
    /// The engine is being spawned under `secret`.
    Spawning { secret: String },
    /// The termination monitor is being bound to the spawned process.
    Watching { handle: ProcessHandle },
    /// The network configuration is being applied.
    Network { child: Option<ProcessHandle> },
    /// The spawned process is being killed after the network
    /// configuration failed with `message`.
    RollingBack { message: String },
    /// The warm-up interval is running.
    WarmUp,
    /// The notification is being emitted.
    Announce,
}

pub enum StartPhaseView {
    Draining { stop: StopTask },
    Credential,
    Spawning { secret: Seq<char> },
    Watching { handle: ProcessHandle },
    Network { child: Option<ProcessHandle> },
    RollingBack { message: Seq<char> },
    WarmUp,
    Announce,
}

impl View for StartPhase {
    type V = StartPhaseView;

    open spec fn view(&self) -> StartPhaseView {
        match *self {
            StartPhase::Draining { stop } => StartPhaseView::Draining { stop },
            StartPhase::Credential => StartPhaseView::Credential,
            StartPhase::Spawning { secret } => StartPhaseView::Spawning { secret: secret@ },
            StartPhase::Watching { handle } => StartPhaseView::Watching { handle },
            StartPhase::Network { child } => StartPhaseView::Network { child },
            StartPhase::RollingBack { message } => StartPhaseView::RollingBack {
                message: message@,
            },
            StartPhase::WarmUp => StartPhaseView::WarmUp,
            StartPhase::Announce => StartPhaseView::Announce,
        }
    }
}

/// A start sequence between two effects.
#[derive(Debug, PartialEq, Eq)]
pub struct StartTask {
    pub config_path: String,
    pub mode: ProxyMode,
    pub phase: StartPhase,
}

pub struct StartTaskView {
    pub config_path: Seq<char>,
    pub mode: ProxyMode,
    pub phase: StartPhaseView,
}

impl View for StartTask {
    type V = StartTaskView;

    open spec fn view(&self) -> StartTaskView {
        StartTaskView { config_path: self.config_path@, mode: self.mode, phase: self.phase@ }
    }
}

/// The network configuration that goes with a mode: the proxy settings
/// point at the listener in system proxy mode and must not in TUN mode.
pub open spec fn network_effect(mode: ProxyMode) -> EffectView {
    match mode {
        ProxyMode::SystemProxy => EffectView::SetProxy,
        ProxyMode::TunProxy => EffectView::UnsetProxy,
    }
}

/// The warm-up interval after a spawn that did or did not retain a handle.
pub open spec fn warm_up_millis(managed: bool) -> u64 {
    if managed {
        MANAGED_WARM_UP_MILLIS
    } else {
        UNMANAGED_WARM_UP_MILLIS
    }
}

/// The step that spawns the engine: directly in system proxy mode, through
/// the platform adapter in TUN mode.
pub open spec fn start_spawn(config_path: Seq<char>, mode: ProxyMode, secret: Seq<char>) -> StepView<
    StartTaskView,
> {
    StepView::Perform {
        task: StartTaskView { config_path, mode, phase: StartPhaseView::Spawning { secret } },
        effect: match mode {
            ProxyMode::SystemProxy => EffectView::SpawnEngine { config_path },
            ProxyMode::TunProxy => EffectView::SpawnPrivileged { config_path, secret },
        },
    }
}

/// The step after the live session was stopped: ask for the credential
/// where one is needed, else spawn with an empty secret.
pub open spec fn start_resolve(config_path: Seq<char>, mode: ProxyMode, platform: Platform) -> StepView<
    StartTaskView,
> {
    if needs_password(platform, mode) {
        StepView::Perform {
            task: StartTaskView { config_path, mode, phase: StartPhaseView::Credential },
            effect: EffectView::FetchPassword { mode },
        }
    } else {
        start_spawn(config_path, mode, Seq::empty())
    }
}

/// A step of the stop that a start begins with, as a step of the start: a
/// failed stop ends the start, a finished one hands over.
pub open spec fn start_drain(
    step: StepView<StopTask>,
    config_path: Seq<char>,
    mode: ProxyMode,
    platform: Platform,
) -> StepView<StartTaskView> {
    match step {
        StepView::Perform { task, effect } => StepView::Perform {
            task: StartTaskView { config_path, mode, phase: StartPhaseView::Draining { stop: task } },
            effect,
        },
        StepView::Finish { result: Err(error) } => StepView::Finish { result: Err(error) },
        StepView::Finish { result: Ok(_) } => start_resolve(config_path, mode, platform),
    }
}

/// The first step of a start on a record that holds `session`.
pub open spec fn start_first(
    session: Session,
    config_path: Seq<char>,
    mode: ProxyMode,
    platform: Platform,
) -> StepView<StartTaskView> {
    start_drain(stop_first(session.snapshot(), platform), config_path, mode, platform)
}

/// The step that applies the network configuration of the task's mode.
pub open spec fn start_network(
    config_path: Seq<char>,
    mode: ProxyMode,
    child: Option<ProcessHandle>,
) -> StepView<StartTaskView> {
    StepView::Perform {
        task: StartTaskView { config_path, mode, phase: StartPhaseView::Network { child } },
        effect: network_effect(mode),
    }
}

/// The step after `outcome` was handed to `task`, and the record after it.
/// The record changes in two places only: a spawn that came out commits
/// the session, and a failed network configuration empties the record.
pub open spec fn start_next(
    task: StartTaskView,
    session: Session,
    outcome: OutcomeView,
    platform: Platform,
) -> (StepView<StartTaskView>, Session) {
    let config_path = task.config_path;
    let mode = task.mode;
    match task.phase {
        StartPhaseView::Draining { stop } => (
            start_drain(stop_next(stop, outcome, platform), config_path, mode, platform),
            session,
        ),
        StartPhaseView::Credential => match outcome {
            OutcomeView::Password { value } => match resolved_password(platform, mode, value) {
                Ok(secret) => (start_spawn(config_path, mode, secret), session),
                Err(error) => (StepView::Finish { result: Err(error) }, session),
            },
            OutcomeView::Failed { message } => (
                StepView::Finish { result: Err(CoreErrorView::Privilege { message }) },
                session,
            ),
            _ => (StepView::Finish { result: Err(CoreErrorView::Unexpected) }, session),
        },
        StartPhaseView::Spawning { secret } => match outcome {
            OutcomeView::Spawned { handle } => (
                StepView::Perform {
                    task: StartTaskView {
                        config_path,
                        mode,
                        phase: StartPhaseView::Watching { handle },
                    },
                    effect: EffectView::Watch { handle, mode },
                },
                Session::committed(mode, Some(secret), config_path, Some(handle)),
            ),
            OutcomeView::Unmanaged => if mode == ProxyMode::TunProxy {
                (
                    start_network(config_path, mode, None),
                    Session::committed(mode, Some(secret), config_path, None),
                )
            } else {
                (StepView::Finish { result: Err(CoreErrorView::Unexpected) }, session)
            },
            OutcomeView::Failed { message } => (
                StepView::Finish { result: Err(CoreErrorView::Spawn { message }) },
                session,
            ),
            _ => (StepView::Finish { result: Err(CoreErrorView::Unexpected) }, session),
        },
        StartPhaseView::Watching { handle } => (
            start_network(config_path, mode, Some(handle)),
            session,
        ),
        StartPhaseView::Network { child } => match outcome {
            OutcomeView::Failed { message } => (
                match child {
                    Some(handle) => StepView::Perform {
                        task: StartTaskView {
                            config_path,
                            mode,
                            phase: StartPhaseView::RollingBack { message },
                        },
                        effect: EffectView::Kill { handle },
                    },
                    None => StepView::Finish {
                        result: Err(CoreErrorView::ProxyConfig { message }),
                    },
                },
                Session::empty(),
            ),
            _ => (
                StepView::Perform {
                    task: StartTaskView { config_path, mode, phase: StartPhaseView::WarmUp },
                    effect: EffectView::Sleep { millis: warm_up_millis(child.is_some()) },
                },
                session,
            ),
        },
        StartPhaseView::RollingBack { message } => (
            StepView::Finish { result: Err(CoreErrorView::ProxyConfig { message }) },
            session,
        ),
        StartPhaseView::WarmUp => (
            StepView::Perform {
                task: StartTaskView { config_path, mode, phase: StartPhaseView::Announce },
                effect: EffectView::Notify,
            },
            session,
        ),
        StartPhaseView::Announce => (
            StepView::Finish { result: Ok(Completion::Started) },
            session,
        ),
    }
}

fn spawn_step(config_path: String, mode: ProxyMode, secret: String) -> (step: Step<StartTask>)
    ensures
        step@ == start_spawn(config_path@, mode, secret@),
{
    let effect = match mode {
        ProxyMode::SystemProxy => Effect::SpawnEngine { config_path: config_path.clone() },
        ProxyMode::TunProxy => Effect::SpawnPrivileged {
            config_path: config_path.clone(),
            secret: secret.clone(),
        },
    };
    Step::Perform { task: StartTask { config_path, mode, phase: StartPhase::Spawning { secret } }, effect }
}

fn resolve_step(config_path: String, mode: ProxyMode, platform: Platform) -> (step: Step<StartTask>)
    ensures
        step@ == start_resolve(config_path@, mode, platform),
{
    if requires_password(platform, &mode) {
        Step::Perform {
            task: StartTask { config_path, mode, phase: StartPhase::Credential },
            effect: Effect::FetchPassword { mode },
        }
    } else {
        spawn_step(config_path, mode, String::new())
    }
}

fn drain_step(stopping: Step<StopTask>, config_path: String, mode: ProxyMode, platform: Platform) -> (step:
    Step<StartTask>)
    ensures
        step@ == start_drain(stopping@, config_path@, mode, platform),
{
    match stopping {
        Step::Perform { task, effect } => Step::Perform {
            task: StartTask { config_path, mode, phase: StartPhase::Draining { stop: task } },
            effect,
        },
        Step::Finish { result: Err(error) } => Step::Finish { result: Err(error) },
        Step::Finish { result: Ok(_) } => resolve_step(config_path, mode, platform),
    }
}

fn network_step(config_path: String, mode: ProxyMode, child: Option<ProcessHandle>) -> (step: Step<
    StartTask,
>)
    ensures
        step@ == start_network(config_path@, mode, child),
{
    let effect = match mode {
        ProxyMode::SystemProxy => Effect::SetProxy,
        ProxyMode::TunProxy => Effect::UnsetProxy,
    };
    Step::Perform { task: StartTask { config_path, mode, phase: StartPhase::Network { child } }, effect }
}

impl StartTask {
    /// Begins a start. A start first stops whatever session is live: the
    /// record is emptied here, and the stop's effects come before the
    /// start's own.
    pub fn begin(
        manager: &mut ProcessManager,
        config_path: String,
        mode: ProxyMode,
        platform: Platform,
    ) -> (step: Step<StartTask>)
        ensures
            final(manager)@ == Session::empty(),
            step@ == start_first(old(manager)@, config_path@, mode, platform),
    {
        let stopping = StopTask::begin(manager, platform);
        drain_step(stopping, config_path, mode, platform)
    }

    /// Goes on with the start after the effect asked for last came out as
    /// `outcome`.
    pub fn resume(self, manager: &mut ProcessManager, outcome: Outcome, platform: Platform) -> (step:
        Step<StartTask>)
        ensures
            (step@, final(manager)@) == start_next(self@, old(manager)@, outcome@, platform),
    {
        let StartTask { config_path, mode, phase } = self;
        match phase {
            StartPhase::Draining { stop } => {
                let stopping = stop.resume(outcome, platform);
                drain_step(stopping, config_path, mode, platform)
            },
            StartPhase::Credential => match outcome {
                Outcome::Password { value } => match get_password_for_mode(&mode, platform, value) {
                    Ok(secret) => spawn_step(config_path, mode, secret),
                    Err(error) => Step::Finish { result: Err(error) },
                },
                Outcome::Failed { message } => Step::Finish {
                    result: Err(CoreError::Privilege { message }),
                },
                _ => Step::Finish { result: Err(CoreError::Unexpected) },
            },
            StartPhase::Spawning { secret } => match outcome {
                Outcome::Spawned { handle } => {
                    manager.commit(mode, Some(secret), config_path.clone(), Some(handle));
                    Step::Perform {
                        task: StartTask { config_path, mode, phase: StartPhase::Watching { handle } },
                        effect: Effect::Watch { handle, mode },
                    }
                },
                Outcome::Unmanaged => {
                    if mode.is_tun() {
                        manager.commit(mode, Some(secret), config_path.clone(), None);
                        network_step(config_path, mode, None)
                    } else {
                        Step::Finish { result: Err(CoreError::Unexpected) }
                    }
                },
                Outcome::Failed { message } => Step::Finish {
                    result: Err(CoreError::Spawn { message }),
                },
                _ => Step::Finish { result: Err(CoreError::Unexpected) },
            },
            StartPhase::Watching { handle } => network_step(config_path, mode, Some(handle)),
            StartPhase::Network { child } => match outcome {
                Outcome::Failed { message } => {
                    let _ = manager.snapshot_and_clear();
                    match child {
                        Some(handle) => Step::Perform {
                            task: StartTask {
                                config_path,
                                mode,
                                phase: StartPhase::RollingBack { message },
                            },
                            effect: Effect::Kill { handle },
                        },
                        None => Step::Finish { result: Err(CoreError::ProxyConfig { message }) },
                    }
                },
                _ => {
                    let millis = if child.is_some() {
                        MANAGED_WARM_UP_MILLIS
                    } else {
                        UNMANAGED_WARM_UP_MILLIS
                    };
                    Step::Perform {
                        task: StartTask { config_path, mode, phase: StartPhase::WarmUp },
                        effect: Effect::Sleep { millis },
                    }
                },
            },
            StartPhase::RollingBack { message } => Step::Finish {
                result: Err(CoreError::ProxyConfig { message }),
            },
            StartPhase::WarmUp => Step::Perform {
                task: StartTask { config_path, mode, phase: StartPhase::Announce },
                effect: Effect::Notify,
            },
            StartPhase::Announce => Step::Finish { result: Ok(Completion::Started) },
        }
    }
}

} // verus!
