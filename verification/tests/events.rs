use onebox::effect::{Completion, CoreError, Platform};
use onebox::events::{
    copies_database_file, directory_opener, leaves_after_stop, on_menu_event, on_run_event,
    on_window_event, read_logs, unminimize_on_show, user_agent, window_url, MenuAction,
    WindowAction, WindowEventKind,
};
use onebox::state::{AppData, LogType};
use onebox::text::same_text;

#[test]
fn menu_items_by_identifier() {
    assert_eq!(on_menu_event("show"), MenuAction::ShowMain);
    assert_eq!(on_menu_event("quit"), MenuAction::Quit);
    assert_eq!(on_menu_event("enable"), MenuAction::Nothing);
    assert_eq!(on_menu_event("about"), MenuAction::Unhandled);
    assert_eq!(on_menu_event(""), MenuAction::Unhandled);
    assert_eq!(on_menu_event("Show"), MenuAction::Unhandled);
}

#[test]
fn only_main_window_hides_and_quits() {
    assert_eq!(on_window_event("main", WindowEventKind::CloseRequested), WindowAction::HideToTray);
    assert_eq!(on_window_event("main", WindowEventKind::Destroyed), WindowAction::Quit);
    assert_eq!(on_window_event("main", WindowEventKind::Other), WindowAction::Nothing);
    assert_eq!(on_window_event("settings", WindowEventKind::CloseRequested), WindowAction::Nothing);
    assert_eq!(on_window_event("settings", WindowEventKind::Destroyed), WindowAction::Nothing);
}

#[test]
fn reopen_shows_main_window_on_macos_only() {
    assert!(on_run_event(Platform::MacOs, true, false));
    assert!(!on_run_event(Platform::MacOs, true, true));
    assert!(!on_run_event(Platform::MacOs, false, false));
    assert!(!on_run_event(Platform::Linux, true, false));
    assert!(!on_run_event(Platform::Windows, true, false));
    assert!(unminimize_on_show(Platform::Linux));
    assert!(unminimize_on_show(Platform::Windows));
    assert!(!unminimize_on_show(Platform::MacOs));
}

#[test]
fn quit_leaves_only_after_good_stop() {
    assert!(leaves_after_stop(&Ok(Completion::Stopped)));
    assert!(!leaves_after_stop(&Err(CoreError::Privilege { message: "no".to_string() })));
}

#[test]
fn read_logs_drains_level_of_flag() {
    let mut data = AppData::new();
    data.write("i1".to_string(), LogType::Info);
    data.write("e1".to_string(), LogType::Error);
    data.write("e2".to_string(), LogType::Error);
    assert_eq!(read_logs(&mut data, true), "e1\ne2");
    assert_eq!(read_logs(&mut data, true), "");
    assert_eq!(read_logs(&mut data, false), "i1");
    assert_eq!(read_logs(&mut data, false), "");
}

#[test]
fn small_texts() {
    assert!(same_text("a", "a"));
    assert!(!same_text("a", "b"));
    assert!(!same_text("a", "ab"));
    assert_eq!(directory_opener(Platform::MacOs), "open");
    assert_eq!(directory_opener(Platform::Windows), "explorer");
    assert_eq!(directory_opener(Platform::Linux), "xdg-open");
    assert_eq!(window_url("settings"), "index.html?windowTag=settings");
    assert_eq!(
        user_agent("1.2.3", "macos", "aarch64", Some("de-DE")),
        "OneBox/1.2.3 (Tauri; macos/aarch64; de-DE)"
    );
    assert_eq!(
        user_agent("1.2.3", "linux", "x86_64", None),
        "OneBox/1.2.3 (Tauri; linux/x86_64; en-US)"
    );
}

#[test]
fn only_new_database_files_are_copied() {
    assert!(copies_database_file(true, Some("db"), false));
    assert!(!copies_database_file(true, Some("db"), true));
    assert!(!copies_database_file(false, Some("db"), false));
    assert!(!copies_database_file(true, Some("txt"), false));
    assert!(!copies_database_file(true, None, false));
}
