use onebox::privilege::{get_password_for_mode, requires_password};
use onebox::effect::{Completion, CoreError, Platform};
use onebox::session::{ProcessHandle, ProcessManager, ProxyMode, Snapshot};

#[test]
fn default_mode_is_system_proxy() {
    assert_eq!(ProxyMode::default(), ProxyMode::SystemProxy);
    assert_eq!(ProxyMode::from_flag(true), ProxyMode::TunProxy);
    assert_eq!(ProxyMode::from_flag(false), ProxyMode::SystemProxy);
    assert!(ProxyMode::TunProxy.is_tun());
    assert!(!ProxyMode::SystemProxy.is_tun());
}

#[test]
fn new_record_is_empty() {
    let manager = ProcessManager::new();
    assert_eq!(manager.current_mode(), None);
    assert_eq!(manager.secret(), None);
    assert_eq!(manager.config_path(), None);
    assert_eq!(manager.child(), None);
}

#[test]
fn commit_installs_session() {
    let mut manager = ProcessManager::new();
    manager.commit(
        ProxyMode::TunProxy,
        Some("pw".to_string()),
        "/etc/box.json".to_string(),
        Some(ProcessHandle { id: 7 }),
    );
    assert_eq!(manager.current_mode(), Some(ProxyMode::TunProxy));
    assert_eq!(manager.secret(), Some("pw".to_string()));
    assert_eq!(manager.config_path(), Some("/etc/box.json".to_string()));
    assert_eq!(manager.child(), Some(ProcessHandle { id: 7 }));
}

#[test]
fn commit_keeps_no_secret_outside_tun_mode() {
    let mut manager = ProcessManager::new();
    manager.commit(ProxyMode::SystemProxy, Some("pw".to_string()), "c".to_string(), None);
    assert_eq!(manager.current_mode(), Some(ProxyMode::SystemProxy));
    assert_eq!(manager.secret(), None);
    assert_eq!(manager.config_path(), Some("c".to_string()));
    assert_eq!(manager.child(), None);
}

#[test]
fn commit_replaces_previous_session() {
    let mut manager = ProcessManager::new();
    manager.commit(ProxyMode::TunProxy, Some("pw".to_string()), "a".to_string(), Some(ProcessHandle { id: 1 }));
    manager.commit(ProxyMode::SystemProxy, None, "b".to_string(), Some(ProcessHandle { id: 2 }));
    assert_eq!(manager.current_mode(), Some(ProxyMode::SystemProxy));
    assert_eq!(manager.secret(), None);
    assert_eq!(manager.config_path(), Some("b".to_string()));
    assert_eq!(manager.child(), Some(ProcessHandle { id: 2 }));
}

#[test]
fn snapshot_and_clear_returns_prior_values_and_empties() {
    let mut manager = ProcessManager::new();
    manager.commit(ProxyMode::TunProxy, Some("pw".to_string()), "a".to_string(), Some(ProcessHandle { id: 1 }));
    let taken = manager.snapshot_and_clear();
    assert_eq!(
        taken,
        Snapshot {
            mode: Some(ProxyMode::TunProxy),
            secret: Some("pw".to_string()),
            child: Some(ProcessHandle { id: 1 }),
        }
    );
    assert_eq!(manager.current_mode(), None);
    assert_eq!(manager.secret(), None);
    assert_eq!(manager.config_path(), None);
    assert_eq!(manager.child(), None);
    let again = manager.snapshot_and_clear();
    assert_eq!(again, Snapshot { mode: None, secret: None, child: None });
}

#[test]
fn compare_and_clear_if_clears_only_on_same_mode() {
    let mut manager = ProcessManager::new();
    assert!(!manager.compare_and_clear_if(ProxyMode::SystemProxy));
    manager.commit(ProxyMode::TunProxy, Some("pw".to_string()), "a".to_string(), Some(ProcessHandle { id: 1 }));
    assert!(!manager.compare_and_clear_if(ProxyMode::SystemProxy));
    assert_eq!(manager.current_mode(), Some(ProxyMode::TunProxy));
    assert_eq!(manager.secret(), Some("pw".to_string()));
    assert_eq!(manager.child(), Some(ProcessHandle { id: 1 }));
    assert_eq!(manager.config_path(), Some("a".to_string()));
    assert!(manager.compare_and_clear_if(ProxyMode::TunProxy));
    assert_eq!(manager.current_mode(), None);
    assert_eq!(manager.secret(), None);
    assert_eq!(manager.child(), None);
    assert_eq!(manager.config_path(), None);
    assert!(!manager.compare_and_clear_if(ProxyMode::TunProxy));
}

#[test]
fn handle_is_never_held_without_mode() {
    let mut manager = ProcessManager::new();
    let modes = [ProxyMode::SystemProxy, ProxyMode::TunProxy];
    for round in 0..24u64 {
        match round % 4 {
            0 => manager.commit(
                modes[(round % 2) as usize],
                Some("pw".to_string()),
                "c".to_string(),
                Some(ProcessHandle { id: round }),
            ),
            1 => {
                manager.compare_and_clear_if(modes[((round / 4) % 2) as usize]);
            }
            2 => manager.commit(modes[((round / 8) % 2) as usize], None, "d".to_string(), Some(ProcessHandle { id: round })),
            _ => {
                manager.snapshot_and_clear();
            }
        }
        assert_eq!(manager.child().is_some(), manager.current_mode().is_some());
        assert_eq!(manager.config_path().is_some(), manager.current_mode().is_some());
        if manager.secret().is_some() {
            assert_eq!(manager.current_mode(), Some(ProxyMode::TunProxy));
        }
    }
}

#[test]
fn password_is_needed_for_tun_on_posix_only() {
    assert!(requires_password(Platform::Linux, &ProxyMode::TunProxy));
    assert!(requires_password(Platform::MacOs, &ProxyMode::TunProxy));
    assert!(!requires_password(Platform::Windows, &ProxyMode::TunProxy));
    assert!(!requires_password(Platform::Linux, &ProxyMode::SystemProxy));
    assert!(!requires_password(Platform::MacOs, &ProxyMode::SystemProxy));
    assert!(!requires_password(Platform::Windows, &ProxyMode::SystemProxy));
}

#[test]
fn missing_password_is_reported_by_sentinel() {
    let resolved = get_password_for_mode(&ProxyMode::TunProxy, Platform::Linux, String::new());
    assert_eq!(resolved, Err(CoreError::RequirePrivilege));
    assert_eq!(CoreError::RequirePrivilege.message(), "REQUIRE_PRIVILEGE");
}

#[test]
fn stored_password_is_the_secret_where_needed() {
    assert_eq!(
        get_password_for_mode(&ProxyMode::TunProxy, Platform::MacOs, "pw".to_string()),
        Ok("pw".to_string())
    );
    assert_eq!(
        get_password_for_mode(&ProxyMode::SystemProxy, Platform::MacOs, "pw".to_string()),
        Ok(String::new())
    );
    assert_eq!(
        get_password_for_mode(&ProxyMode::TunProxy, Platform::Windows, "pw".to_string()),
        Ok(String::new())
    );
    assert_eq!(
        get_password_for_mode(&ProxyMode::SystemProxy, Platform::Windows, String::new()),
        Ok(String::new())
    );
}

#[test]
fn error_and_completion_messages() {
    assert_eq!(CoreError::Privilege { message: "denied".to_string() }.message(), "denied");
    assert_eq!(CoreError::Spawn { message: "no such file".to_string() }.message(), "no such file");
    assert_eq!(CoreError::ProxyConfig { message: "gsettings".to_string() }.message(), "gsettings");
    assert_eq!(CoreError::Signal { message: "pkill".to_string() }.message(), "pkill");
    assert_eq!(CoreError::NoRunningProcess.message(), "No running process found");
    assert_eq!(CoreError::ModeMismatch.message(), "Requested mode does not match the running mode");
    assert_eq!(
        CoreError::Restart { message: "boom".to_string() }.message(),
        "Failed to reload config by restarting process: boom"
    );
    assert_eq!(CoreError::Unexpected.message(), "Unexpected outcome");
    assert_eq!(Completion::Reloaded.message(), "Configuration reloaded successfully");
    assert_eq!(
        Completion::Restarted.message(),
        "Configuration reloaded successfully by restarting process"
    );
    assert_eq!(Completion::Started.message(), "Started");
    assert_eq!(Completion::Stopped.message(), "Stopped");
}
