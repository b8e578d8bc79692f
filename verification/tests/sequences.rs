use onebox::effect::{Completion, CoreError, Effect, Outcome, Platform, Step};
use onebox::monitor::{EngineEvent, Monitor, Reaction};
use onebox::reload::{reload_signal_unsent, reload_signalled, ReloadTask};
use onebox::session::{ProcessHandle, ProcessManager, ProxyMode};
use onebox::start::{StartPhase, StartTask};
use onebox::state::LogType;
use onebox::stop::{stop_tun_outcome, StopTask};

type Script = fn(&Effect) -> Outcome;

fn all_goes_well(effect: &Effect) -> Outcome {
    match effect {
        Effect::FetchPassword { .. } => Outcome::Password { value: "hunter2".to_string() },
        Effect::SpawnEngine { .. } => Outcome::Spawned { handle: ProcessHandle { id: 11 } },
        Effect::SpawnPrivileged { .. } => Outcome::Spawned { handle: ProcessHandle { id: 22 } },
        _ => Outcome::Done,
    }
}

fn no_password(effect: &Effect) -> Outcome {
    match effect {
        Effect::FetchPassword { .. } => Outcome::Password { value: String::new() },
        other => all_goes_well(other),
    }
}

fn spawn_without_handle(effect: &Effect) -> Outcome {
    match effect {
        Effect::SpawnPrivileged { .. } => Outcome::Unmanaged,
        other => all_goes_well(other),
    }
}

fn spawn_fails(effect: &Effect) -> Outcome {
    match effect {
        Effect::SpawnEngine { .. } => Outcome::Failed { message: "no such file".to_string() },
        Effect::SpawnPrivileged { .. } => Outcome::Failed { message: "no such file".to_string() },
        other => all_goes_well(other),
    }
}

fn network_fails(effect: &Effect) -> Outcome {
    match effect {
        Effect::SetProxy => Outcome::Failed { message: "proxy refused".to_string() },
        Effect::UnsetProxy => Outcome::Failed { message: "proxy refused".to_string() },
        other => all_goes_well(other),
    }
}

fn stop_tun_fails(effect: &Effect) -> Outcome {
    match effect {
        Effect::StopTun { .. } => Outcome::Failed { message: "sudo refused".to_string() },
        other => all_goes_well(other),
    }
}

fn terminate_fails(effect: &Effect) -> Outcome {
    match effect {
        Effect::Terminate { .. } => Outcome::Failed { message: "no signal".to_string() },
        other => all_goes_well(other),
    }
}

fn terminate_and_kill_fail(effect: &Effect) -> Outcome {
    match effect {
        Effect::Terminate { .. } => Outcome::Failed { message: "no signal".to_string() },
        Effect::Kill { .. } => Outcome::Failed { message: "still alive".to_string() },
        other => all_goes_well(other),
    }
}

fn signal_fails(effect: &Effect) -> Outcome {
    match effect {
        Effect::SignalReload { .. } => reload_signalled(false, "pkill: no process"),
        other => all_goes_well(other),
    }
}

fn everything_fails(_effect: &Effect) -> Outcome {
    Outcome::Failed { message: "failed".to_string() }
}

fn run_stop(
    manager: &mut ProcessManager,
    platform: Platform,
    script: Script,
) -> (Vec<Effect>, Result<Completion, CoreError>) {
    let mut effects = Vec::new();
    let mut step = StopTask::begin(manager, platform);
    loop {
        match step {
            Step::Perform { task, effect } => {
                let outcome = script(&effect);
                effects.push(effect);
                step = task.resume(outcome, platform);
            }
            Step::Finish { result } => return (effects, result),
        }
    }
}

fn run_start(
    manager: &mut ProcessManager,
    path: &str,
    mode: ProxyMode,
    platform: Platform,
    script: Script,
) -> (Vec<Effect>, Result<Completion, CoreError>) {
    let mut effects = Vec::new();
    let mut step = StartTask::begin(manager, path.to_string(), mode, platform);
    loop {
        match step {
            Step::Perform { task, effect } => {
                let outcome = script(&effect);
                effects.push(effect);
                step = task.resume(manager, outcome, platform);
            }
            Step::Finish { result } => return (effects, result),
        }
    }
}

fn run_reload(
    manager: &mut ProcessManager,
    is_tun: bool,
    platform: Platform,
    script: Script,
) -> (Vec<Effect>, Result<Completion, CoreError>) {
    let mut effects = Vec::new();
    let mut step = ReloadTask::begin(manager, is_tun, platform);
    loop {
        match step {
            Step::Perform { task, effect } => {
                let outcome = script(&effect);
                effects.push(effect);
                step = task.resume(manager, outcome, platform);
            }
            Step::Finish { result } => return (effects, result),
        }
    }
}

fn assert_empty(manager: &ProcessManager) {
    assert_eq!(manager.current_mode(), None);
    assert_eq!(manager.secret(), None);
    assert_eq!(manager.config_path(), None);
    assert_eq!(manager.child(), None);
}

#[test]
fn stop_with_nothing_running_waits_and_notifies() {
    let mut manager = ProcessManager::new();
    let (effects, result) = run_stop(&mut manager, Platform::Linux, all_goes_well);
    assert_eq!(effects, vec![Effect::Sleep { millis: 500 }, Effect::Notify]);
    assert_eq!(result, Ok(Completion::Stopped));
    assert_empty(&manager);
}

#[test]
fn stop_twice_never_errors_and_leaves_record_cleared() {
    let mut manager = ProcessManager::new();
    let (_, started) = run_start(&mut manager, "box.json", ProxyMode::SystemProxy, Platform::Linux, all_goes_well);
    assert_eq!(started, Ok(Completion::Started));
    let (first, result) = run_stop(&mut manager, Platform::Linux, all_goes_well);
    assert_eq!(result, Ok(Completion::Stopped));
    assert_eq!(
        first,
        vec![
            Effect::UnsetProxy,
            Effect::Terminate { handle: ProcessHandle { id: 11 } },
            Effect::Sleep { millis: 500 },
            Effect::Notify,
        ]
    );
    assert_empty(&manager);
    let (second, result) = run_stop(&mut manager, Platform::Linux, everything_fails);
    assert_eq!(result, Ok(Completion::Stopped));
    assert_eq!(second, vec![Effect::Sleep { millis: 500 }, Effect::Notify]);
    assert_empty(&manager);
}

#[test]
fn stop_goes_on_when_unsetting_proxy_fails() {
    let mut manager = ProcessManager::new();
    manager.commit(ProxyMode::SystemProxy, None, "c".to_string(), Some(ProcessHandle { id: 5 }));
    let (effects, result) = run_stop(&mut manager, Platform::MacOs, network_fails);
    assert_eq!(
        effects,
        vec![
            Effect::UnsetProxy,
            Effect::Terminate { handle: ProcessHandle { id: 5 } },
            Effect::Sleep { millis: 500 },
            Effect::Notify,
        ]
    );
    assert_eq!(result, Ok(Completion::Stopped));
    assert_empty(&manager);
}

#[test]
fn stop_in_tun_mode_kills_elevated_engine_with_secret() {
    let mut manager = ProcessManager::new();
    manager.commit(ProxyMode::TunProxy, Some("pw".to_string()), "c".to_string(), Some(ProcessHandle { id: 5 }));
    let (effects, result) = run_stop(&mut manager, Platform::Linux, all_goes_well);
    assert_eq!(
        effects,
        vec![
            Effect::StopTun { secret: "pw".to_string() },
            Effect::Terminate { handle: ProcessHandle { id: 5 } },
            Effect::Sleep { millis: 500 },
            Effect::Notify,
        ]
    );
    assert_eq!(result, Ok(Completion::Stopped));
}

#[test]
fn failed_tun_stop_is_fatal_and_record_is_cleared() {
    let mut manager = ProcessManager::new();
    manager.commit(ProxyMode::TunProxy, Some("pw".to_string()), "c".to_string(), None);
    let (effects, result) = run_stop(&mut manager, Platform::Windows, stop_tun_fails);
    assert_eq!(effects, vec![Effect::StopTun { secret: "pw".to_string() }]);
    assert_eq!(result, Err(CoreError::Privilege { message: "sudo refused".to_string() }));
    assert_empty(&manager);
}

#[test]
fn stop_falls_back_to_forced_termination() {
    let mut manager = ProcessManager::new();
    manager.commit(ProxyMode::SystemProxy, None, "c".to_string(), Some(ProcessHandle { id: 9 }));
    let (effects, result) = run_stop(&mut manager, Platform::Linux, terminate_fails);
    assert_eq!(
        effects,
        vec![
            Effect::UnsetProxy,
            Effect::Terminate { handle: ProcessHandle { id: 9 } },
            Effect::Kill { handle: ProcessHandle { id: 9 } },
            Effect::Sleep { millis: 500 },
            Effect::Notify,
        ]
    );
    assert_eq!(result, Ok(Completion::Stopped));
}

#[test]
fn stop_reports_failed_forced_termination() {
    let mut manager = ProcessManager::new();
    manager.commit(ProxyMode::SystemProxy, None, "c".to_string(), Some(ProcessHandle { id: 9 }));
    let (effects, result) = run_stop(&mut manager, Platform::Linux, terminate_and_kill_fail);
    assert_eq!(
        effects,
        vec![
            Effect::UnsetProxy,
            Effect::Terminate { handle: ProcessHandle { id: 9 } },
            Effect::Kill { handle: ProcessHandle { id: 9 } },
        ]
    );
    assert_eq!(result, Err(CoreError::Signal { message: "still alive".to_string() }));
    assert_empty(&manager);
}

#[test]
fn stop_without_signals_kills_directly() {
    let mut manager = ProcessManager::new();
    manager.commit(ProxyMode::SystemProxy, None, "c".to_string(), Some(ProcessHandle { id: 9 }));
    let (effects, result) = run_stop(&mut manager, Platform::Windows, all_goes_well);
    assert_eq!(
        effects,
        vec![
            Effect::UnsetProxy,
            Effect::Kill { handle: ProcessHandle { id: 9 } },
            Effect::Sleep { millis: 500 },
            Effect::Notify,
        ]
    );
    assert_eq!(result, Ok(Completion::Stopped));
}

#[test]
fn start_in_system_proxy_mode() {
    let mut manager = ProcessManager::new();
    let (effects, result) = run_start(&mut manager, "box.json", ProxyMode::SystemProxy, Platform::Linux, all_goes_well);
    assert_eq!(
        effects,
        vec![
            Effect::Sleep { millis: 500 },
            Effect::Notify,
            Effect::SpawnEngine { config_path: "box.json".to_string() },
            Effect::Watch { handle: ProcessHandle { id: 11 }, mode: ProxyMode::SystemProxy },
            Effect::SetProxy,
            Effect::Sleep { millis: 1500 },
            Effect::Notify,
        ]
    );
    assert_eq!(result, Ok(Completion::Started));
    assert_eq!(manager.current_mode(), Some(ProxyMode::SystemProxy));
    assert_eq!(manager.child(), Some(ProcessHandle { id: 11 }));
    assert_eq!(manager.secret(), None);
    assert_eq!(manager.config_path(), Some("box.json".to_string()));
}

#[test]
fn start_in_tun_mode_with_stored_password() {
    let mut manager = ProcessManager::new();
    let (effects, result) = run_start(&mut manager, "box.json", ProxyMode::TunProxy, Platform::MacOs, all_goes_well);
    assert_eq!(
        effects,
        vec![
            Effect::Sleep { millis: 500 },
            Effect::Notify,
            Effect::FetchPassword { mode: ProxyMode::TunProxy },
            Effect::SpawnPrivileged { config_path: "box.json".to_string(), secret: "hunter2".to_string() },
            Effect::Watch { handle: ProcessHandle { id: 22 }, mode: ProxyMode::TunProxy },
            Effect::UnsetProxy,
            Effect::Sleep { millis: 1500 },
            Effect::Notify,
        ]
    );
    assert_eq!(result, Ok(Completion::Started));
    assert_eq!(manager.current_mode(), Some(ProxyMode::TunProxy));
    assert_eq!(manager.child(), Some(ProcessHandle { id: 22 }));
    assert_eq!(manager.secret(), Some("hunter2".to_string()));
    assert_eq!(manager.config_path(), Some("box.json".to_string()));
}

#[test]
fn start_in_tun_mode_without_password_asks_for_privilege() {
    let mut manager = ProcessManager::new();
    let (effects, result) = run_start(&mut manager, "box.json", ProxyMode::TunProxy, Platform::Linux, no_password);
    assert_eq!(
        effects,
        vec![
            Effect::Sleep { millis: 500 },
            Effect::Notify,
            Effect::FetchPassword { mode: ProxyMode::TunProxy },
        ]
    );
    assert_eq!(result, Err(CoreError::RequirePrivilege));
    assert_eq!(result.unwrap_err().message(), "REQUIRE_PRIVILEGE");
    assert_empty(&manager);
}

#[test]
fn start_without_handle_commits_session_without_child() {
    let mut manager = ProcessManager::new();
    let (effects, result) =
        run_start(&mut manager, "box.json", ProxyMode::TunProxy, Platform::Windows, spawn_without_handle);
    assert_eq!(
        effects,
        vec![
            Effect::Sleep { millis: 500 },
            Effect::Notify,
            Effect::SpawnPrivileged { config_path: "box.json".to_string(), secret: String::new() },
            Effect::UnsetProxy,
            Effect::Sleep { millis: 1000 },
            Effect::Notify,
        ]
    );
    assert_eq!(result, Ok(Completion::Started));
    assert_eq!(manager.current_mode(), Some(ProxyMode::TunProxy));
    assert_eq!(manager.child(), None);
    assert_eq!(manager.secret(), Some(String::new()));
    assert_eq!(manager.config_path(), Some("box.json".to_string()));
}

#[test]
fn start_reports_spawn_failure_and_commits_nothing() {
    let mut manager = ProcessManager::new();
    let (effects, result) = run_start(&mut manager, "box.json", ProxyMode::SystemProxy, Platform::Linux, spawn_fails);
    assert_eq!(
        effects,
        vec![
            Effect::Sleep { millis: 500 },
            Effect::Notify,
            Effect::SpawnEngine { config_path: "box.json".to_string() },
        ]
    );
    assert_eq!(result, Err(CoreError::Spawn { message: "no such file".to_string() }));
    assert_empty(&manager);
}

#[test]
fn start_rolls_back_when_network_configuration_fails() {
    let mut manager = ProcessManager::new();
    let (effects, result) = run_start(&mut manager, "box.json", ProxyMode::SystemProxy, Platform::Linux, network_fails);
    assert_eq!(
        effects,
        vec![
            Effect::Sleep { millis: 500 },
            Effect::Notify,
            Effect::SpawnEngine { config_path: "box.json".to_string() },
            Effect::Watch { handle: ProcessHandle { id: 11 }, mode: ProxyMode::SystemProxy },
            Effect::SetProxy,
            Effect::Kill { handle: ProcessHandle { id: 11 } },
        ]
    );
    assert_eq!(result, Err(CoreError::ProxyConfig { message: "proxy refused".to_string() }));
    assert_empty(&manager);
}

#[test]
fn start_rolls_back_unmanaged_session_without_kill() {
    let mut manager = ProcessManager::new();
    let script: Script = |effect| match effect {
        Effect::SpawnPrivileged { .. } => Outcome::Unmanaged,
        Effect::UnsetProxy => Outcome::Failed { message: "proxy refused".to_string() },
        _ => Outcome::Done,
    };
    let (effects, result) = run_start(&mut manager, "box.json", ProxyMode::TunProxy, Platform::Windows, script);
    assert_eq!(
        effects,
        vec![
            Effect::Sleep { millis: 500 },
            Effect::Notify,
            Effect::SpawnPrivileged { config_path: "box.json".to_string(), secret: String::new() },
            Effect::UnsetProxy,
        ]
    );
    assert_eq!(result, Err(CoreError::ProxyConfig { message: "proxy refused".to_string() }));
    assert_empty(&manager);
}

#[test]
fn start_stops_live_session_first() {
    let mut manager = ProcessManager::new();
    manager.commit(ProxyMode::SystemProxy, None, "old.json".to_string(), Some(ProcessHandle { id: 3 }));
    let (effects, result) = run_start(&mut manager, "new.json", ProxyMode::SystemProxy, Platform::Linux, all_goes_well);
    assert_eq!(
        effects,
        vec![
            Effect::UnsetProxy,
            Effect::Terminate { handle: ProcessHandle { id: 3 } },
            Effect::Sleep { millis: 500 },
            Effect::Notify,
            Effect::SpawnEngine { config_path: "new.json".to_string() },
            Effect::Watch { handle: ProcessHandle { id: 11 }, mode: ProxyMode::SystemProxy },
            Effect::SetProxy,
            Effect::Sleep { millis: 1500 },
            Effect::Notify,
        ]
    );
    assert_eq!(result, Ok(Completion::Started));
    assert_eq!(manager.config_path(), Some("new.json".to_string()));
    assert_eq!(manager.child(), Some(ProcessHandle { id: 11 }));
}

#[test]
fn start_ends_when_stopping_live_session_fails() {
    let mut manager = ProcessManager::new();
    manager.commit(ProxyMode::TunProxy, Some("pw".to_string()), "old.json".to_string(), None);
    let (effects, result) = run_start(&mut manager, "new.json", ProxyMode::SystemProxy, Platform::Linux, stop_tun_fails);
    assert_eq!(effects, vec![Effect::StopTun { secret: "pw".to_string() }]);
    assert_eq!(result, Err(CoreError::Privilege { message: "sudo refused".to_string() }));
    assert_empty(&manager);
}

#[test]
fn outcome_that_answers_nothing_is_unexpected() {
    let mut manager = ProcessManager::new();
    let task = StartTask {
        config_path: "box.json".to_string(),
        mode: ProxyMode::SystemProxy,
        phase: StartPhase::Spawning { secret: String::new() },
    };
    let step = task.resume(&mut manager, Outcome::Unmanaged, Platform::Linux);
    assert_eq!(step, Step::Finish { result: Err(CoreError::Unexpected) });
    assert_empty(&manager);
    let task = StartTask {
        config_path: "box.json".to_string(),
        mode: ProxyMode::TunProxy,
        phase: StartPhase::Credential,
    };
    let step = task.resume(&mut manager, Outcome::Done, Platform::Linux);
    assert_eq!(step, Step::Finish { result: Err(CoreError::Unexpected) });
    let task = StartTask {
        config_path: "box.json".to_string(),
        mode: ProxyMode::TunProxy,
        phase: StartPhase::Credential,
    };
    let step = task.resume(&mut manager, Outcome::Failed { message: "keyring locked".to_string() }, Platform::Linux);
    assert_eq!(step, Step::Finish { result: Err(CoreError::Privilege { message: "keyring locked".to_string() }) });
}

#[test]
fn late_termination_notice_leaves_newer_session_intact() {
    let mut manager = ProcessManager::new();
    let (effects, result) = run_start(&mut manager, "a.json", ProxyMode::SystemProxy, Platform::Linux, all_goes_well);
    assert_eq!(result, Ok(Completion::Started));
    assert!(effects.contains(&Effect::Watch { handle: ProcessHandle { id: 11 }, mode: ProxyMode::SystemProxy }));
    let mut monitor_a = Monitor::new(ProxyMode::SystemProxy);

    let (_, stopped) = run_stop(&mut manager, Platform::Linux, all_goes_well);
    assert_eq!(stopped, Ok(Completion::Stopped));
    let (_, started) = run_start(&mut manager, "b.json", ProxyMode::TunProxy, Platform::Linux, all_goes_well);
    assert_eq!(started, Ok(Completion::Started));

    let reaction = monitor_a.on_event(&mut manager, EngineEvent::Terminated);
    assert_eq!(reaction, Reaction { level: LogType::Info, unset_proxy: false, notify: false });
    assert!(monitor_a.is_draining());
    assert_eq!(manager.current_mode(), Some(ProxyMode::TunProxy));
    assert_eq!(manager.secret(), Some("hunter2".to_string()));
    assert_eq!(manager.config_path(), Some("b.json".to_string()));
    assert_eq!(manager.child(), Some(ProcessHandle { id: 22 }));
}

#[test]
fn termination_of_live_session_cleans_up() {
    let mut manager = ProcessManager::new();
    manager.commit(ProxyMode::SystemProxy, None, "a.json".to_string(), Some(ProcessHandle { id: 1 }));
    let mut monitor = Monitor::new(ProxyMode::SystemProxy);
    assert_eq!(monitor.mode(), ProxyMode::SystemProxy);
    assert!(!monitor.is_draining());
    assert_eq!(
        monitor.on_event(&mut manager, EngineEvent::Stdout),
        Reaction { level: LogType::Info, unset_proxy: false, notify: false }
    );
    assert_eq!(
        monitor.on_event(&mut manager, EngineEvent::Stderr),
        Reaction { level: LogType::Error, unset_proxy: false, notify: false }
    );
    assert_eq!(manager.current_mode(), Some(ProxyMode::SystemProxy));
    assert_eq!(
        monitor.on_event(&mut manager, EngineEvent::Terminated),
        Reaction { level: LogType::Info, unset_proxy: true, notify: true }
    );
    assert_empty(&manager);
    assert!(monitor.is_draining());
}

#[test]
fn termination_in_tun_mode_leaves_proxy_settings_alone() {
    let mut manager = ProcessManager::new();
    manager.commit(ProxyMode::TunProxy, Some("pw".to_string()), "a.json".to_string(), Some(ProcessHandle { id: 1 }));
    let mut monitor = Monitor::new(ProxyMode::TunProxy);
    assert_eq!(
        monitor.on_event(&mut manager, EngineEvent::Terminated),
        Reaction { level: LogType::Info, unset_proxy: false, notify: true }
    );
    assert_empty(&manager);
}

#[test]
fn monitor_only_logs_after_termination() {
    let mut manager = ProcessManager::new();
    manager.commit(ProxyMode::SystemProxy, None, "a.json".to_string(), Some(ProcessHandle { id: 1 }));
    let mut monitor = Monitor::new(ProxyMode::SystemProxy);
    monitor.on_event(&mut manager, EngineEvent::Terminated);
    manager.commit(ProxyMode::SystemProxy, None, "b.json".to_string(), Some(ProcessHandle { id: 2 }));
    assert_eq!(
        monitor.on_event(&mut manager, EngineEvent::Terminated),
        Reaction { level: LogType::Info, unset_proxy: false, notify: false }
    );
    assert_eq!(
        monitor.on_event(&mut manager, EngineEvent::Stderr),
        Reaction { level: LogType::Error, unset_proxy: false, notify: false }
    );
    assert_eq!(manager.current_mode(), Some(ProxyMode::SystemProxy));
    assert_eq!(manager.child(), Some(ProcessHandle { id: 2 }));
    assert_eq!(manager.config_path(), Some("b.json".to_string()));
}

#[test]
fn reload_in_other_mode_is_refused_without_side_effects() {
    let mut manager = ProcessManager::new();
    manager.commit(ProxyMode::SystemProxy, None, "a.json".to_string(), Some(ProcessHandle { id: 1 }));
    for platform in [Platform::Linux, Platform::MacOs, Platform::Windows] {
        let (effects, result) = run_reload(&mut manager, true, platform, all_goes_well);
        assert_eq!(effects, vec![]);
        assert_eq!(result, Err(CoreError::ModeMismatch));
        assert_eq!(manager.current_mode(), Some(ProxyMode::SystemProxy));
        assert_eq!(manager.child(), Some(ProcessHandle { id: 1 }));
        assert_eq!(manager.config_path(), Some("a.json".to_string()));
    }
}

#[test]
fn reload_without_session_fails() {
    let mut manager = ProcessManager::new();
    for platform in [Platform::Linux, Platform::Windows] {
        for is_tun in [false, true] {
            let (effects, result) = run_reload(&mut manager, is_tun, platform, all_goes_well);
            assert_eq!(effects, vec![]);
            assert_eq!(result, Err(CoreError::NoRunningProcess));
            assert_eq!(result.unwrap_err().message(), "No running process found");
            assert_empty(&manager);
        }
    }
}

#[test]
fn reload_by_signal_keeps_session() {
    let mut manager = ProcessManager::new();
    manager.commit(ProxyMode::SystemProxy, None, "a.json".to_string(), Some(ProcessHandle { id: 1 }));
    let (effects, result) = run_reload(&mut manager, false, Platform::Linux, all_goes_well);
    assert_eq!(effects, vec![Effect::SignalReload { elevation: None }]);
    assert_eq!(result, Ok(Completion::Reloaded));
    assert_eq!(manager.current_mode(), Some(ProxyMode::SystemProxy));
    assert_eq!(manager.child(), Some(ProcessHandle { id: 1 }));
}

#[test]
fn reload_by_signal_in_tun_mode_is_elevated_with_stored_secret() {
    let mut manager = ProcessManager::new();
    manager.commit(ProxyMode::TunProxy, Some("pw".to_string()), "a.json".to_string(), Some(ProcessHandle { id: 1 }));
    let (effects, result) = run_reload(&mut manager, true, Platform::MacOs, all_goes_well);
    assert_eq!(effects, vec![Effect::SignalReload { elevation: Some("pw".to_string()) }]);
    assert_eq!(result, Ok(Completion::Reloaded));
    assert_eq!(manager.secret(), Some("pw".to_string()));
}

#[test]
fn reload_by_signal_in_tun_mode_is_elevated_with_empty_secret_too() {
    let mut manager = ProcessManager::new();
    manager.commit(ProxyMode::TunProxy, Some(String::new()), "a.json".to_string(), None);
    let (effects, result) = run_reload(&mut manager, true, Platform::Linux, all_goes_well);
    assert_eq!(effects, vec![Effect::SignalReload { elevation: Some(String::new()) }]);
    assert_eq!(result, Ok(Completion::Reloaded));
    assert_eq!(manager.current_mode(), Some(ProxyMode::TunProxy));
    assert_eq!(manager.secret(), Some(String::new()));
}

#[test]
fn reload_by_signal_in_tun_mode_without_secret_asks_for_privilege() {
    for platform in [Platform::Linux, Platform::MacOs] {
        let mut manager = ProcessManager::new();
        manager.commit(ProxyMode::TunProxy, None, "a.json".to_string(), Some(ProcessHandle { id: 4 }));
        let (effects, result) = run_reload(&mut manager, true, platform, all_goes_well);
        assert_eq!(effects, vec![]);
        assert_eq!(result, Err(CoreError::RequirePrivilege));
        assert_eq!(result.unwrap_err().message(), "REQUIRE_PRIVILEGE");
        assert_eq!(manager.current_mode(), Some(ProxyMode::TunProxy));
        assert_eq!(manager.secret(), None);
        assert_eq!(manager.config_path(), Some("a.json".to_string()));
        assert_eq!(manager.child(), Some(ProcessHandle { id: 4 }));
    }
}

#[test]
fn signal_command_outcome_by_exit_status() {
    assert_eq!(reload_signalled(true, ""), Outcome::Done);
    assert_eq!(reload_signalled(true, "warning"), Outcome::Done);
    assert_eq!(
        reload_signalled(false, "pkill: no process"),
        Outcome::Failed { message: "Failed to reload config: pkill: no process".to_string() }
    );
    assert_eq!(
        reload_signalled(false, ""),
        Outcome::Failed { message: "Failed to reload config: ".to_string() }
    );
    assert_eq!(
        reload_signal_unsent(true, "sh not found"),
        Outcome::Failed { message: "Failed to send SIGHUP signal with sudo: sh not found".to_string() }
    );
    assert_eq!(
        reload_signal_unsent(false, "pkill not found"),
        Outcome::Failed { message: "Failed to send SIGHUP signal: pkill not found".to_string() }
    );
}

#[test]
fn elevated_kill_counts_only_when_run_with_success() {
    assert_eq!(stop_tun_outcome(true, true, "unused".to_string()), Outcome::Done);
    assert_eq!(
        stop_tun_outcome(true, false, "sudo: a password is required".to_string()),
        Outcome::Failed { message: "sudo: a password is required".to_string() }
    );
    assert_eq!(
        stop_tun_outcome(false, true, "sh not found".to_string()),
        Outcome::Failed { message: "sh not found".to_string() }
    );
    assert_eq!(
        stop_tun_outcome(false, false, String::new()),
        Outcome::Failed { message: String::new() }
    );
}

#[test]
fn failed_elevated_kill_ends_stop() {
    let mut manager = ProcessManager::new();
    manager.commit(ProxyMode::TunProxy, Some("pw".to_string()), "c".to_string(), Some(ProcessHandle { id: 5 }));
    let script: Script = |effect| match effect {
        Effect::StopTun { .. } => stop_tun_outcome(true, false, "sudo refused".to_string()),
        _ => Outcome::Done,
    };
    let (effects, result) = run_stop(&mut manager, Platform::Linux, script);
    assert_eq!(effects, vec![Effect::StopTun { secret: "pw".to_string() }]);
    assert_eq!(result, Err(CoreError::Privilege { message: "sudo refused".to_string() }));
    assert_empty(&manager);
}

#[test]
fn reload_reports_failed_signal() {
    let mut manager = ProcessManager::new();
    manager.commit(ProxyMode::SystemProxy, None, "a.json".to_string(), Some(ProcessHandle { id: 1 }));
    let (effects, result) = run_reload(&mut manager, false, Platform::Linux, signal_fails);
    assert_eq!(effects, vec![Effect::SignalReload { elevation: None }]);
    assert_eq!(
        result,
        Err(CoreError::Signal { message: "Failed to reload config: pkill: no process".to_string() })
    );
    assert_eq!(result.unwrap_err().message(), "Failed to reload config: pkill: no process");
    assert_eq!(manager.current_mode(), Some(ProxyMode::SystemProxy));
}

#[test]
fn reload_without_signals_is_one_stop_then_one_start() {
    let mut manager = ProcessManager::new();
    manager.commit(ProxyMode::SystemProxy, None, "a.json".to_string(), Some(ProcessHandle { id: 1 }));
    let (effects, result) = run_reload(&mut manager, false, Platform::Windows, all_goes_well);
    assert_eq!(
        effects,
        vec![
            Effect::UnsetProxy,
            Effect::Kill { handle: ProcessHandle { id: 1 } },
            Effect::Sleep { millis: 500 },
            Effect::Notify,
            Effect::Sleep { millis: 500 },
            Effect::Notify,
            Effect::SpawnEngine { config_path: "a.json".to_string() },
            Effect::Watch { handle: ProcessHandle { id: 11 }, mode: ProxyMode::SystemProxy },
            Effect::SetProxy,
            Effect::Sleep { millis: 1500 },
            Effect::Notify,
        ]
    );
    assert_eq!(result, Ok(Completion::Restarted));
    let kills = effects.iter().filter(|e| matches!(e, Effect::Kill { .. })).count();
    let spawns = effects
        .iter()
        .filter(|e| matches!(e, Effect::SpawnEngine { .. } | Effect::SpawnPrivileged { .. }))
        .count();
    assert_eq!(kills, 1);
    assert_eq!(spawns, 1);
    assert_eq!(manager.current_mode(), Some(ProxyMode::SystemProxy));
    assert_eq!(manager.config_path(), Some("a.json".to_string()));
    assert_eq!(manager.child(), Some(ProcessHandle { id: 11 }));
}

#[test]
fn reload_without_signals_in_tun_mode_restarts_in_tun_mode() {
    let mut manager = ProcessManager::new();
    manager.commit(ProxyMode::TunProxy, Some(String::new()), "t.json".to_string(), None);
    let (effects, result) = run_reload(&mut manager, true, Platform::Windows, spawn_without_handle);
    assert_eq!(
        effects,
        vec![
            Effect::StopTun { secret: String::new() },
            Effect::Sleep { millis: 500 },
            Effect::Notify,
            Effect::Sleep { millis: 500 },
            Effect::Notify,
            Effect::SpawnPrivileged { config_path: "t.json".to_string(), secret: String::new() },
            Effect::UnsetProxy,
            Effect::Sleep { millis: 1000 },
            Effect::Notify,
        ]
    );
    assert_eq!(result, Ok(Completion::Restarted));
    assert_eq!(manager.current_mode(), Some(ProxyMode::TunProxy));
    assert_eq!(manager.config_path(), Some("t.json".to_string()));
}

#[test]
fn reload_reports_failed_restart() {
    let mut manager = ProcessManager::new();
    manager.commit(ProxyMode::SystemProxy, None, "a.json".to_string(), Some(ProcessHandle { id: 1 }));
    let (_, result) = run_reload(&mut manager, false, Platform::Windows, spawn_fails);
    assert_eq!(result, Err(CoreError::Restart { message: "no such file".to_string() }));
    assert_eq!(
        result.unwrap_err().message(),
        "Failed to reload config by restarting process: no such file"
    );
    assert_empty(&manager);
}

#[test]
fn reload_ends_when_its_stop_fails() {
    let mut manager = ProcessManager::new();
    manager.commit(ProxyMode::TunProxy, Some(String::new()), "t.json".to_string(), None);
    let (effects, result) = run_reload(&mut manager, true, Platform::Windows, stop_tun_fails);
    assert_eq!(effects, vec![Effect::StopTun { secret: String::new() }]);
    assert_eq!(result, Err(CoreError::Privilege { message: "sudo refused".to_string() }));
    assert_empty(&manager);
}

#[test]
fn interleaved_starts_and_stops_keep_handle_and_mode_paired() {
    let mut manager = ProcessManager::new();
    let platform = Platform::Linux;
    let mut first = StartTask::begin(&mut manager, "a.json".to_string(), ProxyMode::SystemProxy, platform);
    let mut second = StartTask::begin(&mut manager, "b.json".to_string(), ProxyMode::TunProxy, platform);
    let mut turn = 0;
    while matches!(first, Step::Perform { .. }) || matches!(second, Step::Perform { .. }) {
        if let Step::Perform { task, effect } = first {
            first = task.resume(&mut manager, all_goes_well(&effect), platform);
        }
        assert_eq!(manager.child().is_some(), manager.current_mode().is_some());
        if turn % 2 == 0 {
            if let Step::Perform { task, effect } = second {
                second = task.resume(&mut manager, all_goes_well(&effect), platform);
            }
        }
        assert_eq!(manager.child().is_some(), manager.current_mode().is_some());
        if turn == 3 {
            let _ = StopTask::begin(&mut manager, platform);
            assert_empty(&manager);
        }
        turn += 1;
    }
    assert_eq!(first, Step::Finish { result: Ok(Completion::Started) });
    assert_eq!(second, Step::Finish { result: Ok(Completion::Started) });
    assert_eq!(manager.child().is_some(), manager.current_mode().is_some());
    assert_eq!(manager.current_mode(), Some(ProxyMode::TunProxy));
    assert_eq!(manager.config_path(), Some("b.json".to_string()));
}
