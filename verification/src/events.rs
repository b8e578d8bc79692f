//! What the application does on the events of its menu and windows, and
//! the small texts it builds for the shell around it.

use crate::effect::{Completion, CoreError, Platform};
use crate::state::{joined, AppData, LogType};
use crate::text::same_text;
use vstd::prelude::*;
use vstd::string::StringExecFns;

verus! {

/// What a menu item asks for.
#[derive(Clone, Copy, Debug, PartialEq, Eq, Structural)]
pub enum MenuAction {
    /// Show the main window and give it the focus.
    ShowMain,
    /// Stop the engine and leave.
    Quit,
    /// The item is handled elsewhere.
    Nothing,
    /// The item is unknown; it is logged.
    Unhandled,
}

/// The action of the menu item with the identifier `id`.
pub open spec fn menu_action(id: Seq<char>) -> MenuAction {
    if id == "show"@ {
        MenuAction::ShowMain
    } else if id == "quit"@ {
        MenuAction::Quit
    } else if id == "enable"@ {
        MenuAction::Nothing
    } else {
        MenuAction::Unhandled
    }
}

pub fn on_menu_event(id: &str) -> (action: MenuAction)
    ensures
        action == menu_action(id@),
{
    if same_text(id, "show") {
        MenuAction::ShowMain
    } else if same_text(id, "quit") {
        MenuAction::Quit
    } else if same_text(id, "enable") {
        MenuAction::Nothing
    } else {
        MenuAction::Unhandled
    }
}

/// The kinds of window event the application reacts to.
#[derive(Clone, Copy, Debug, PartialEq, Eq, Structural)]
pub enum WindowEventKind {
    CloseRequested,
    Destroyed,
    Other,
}

/// What the application does on a window event.
#[derive(Clone, Copy, Debug, PartialEq, Eq, Structural)]
pub enum WindowAction {
    /// Keep the window from closing and hide it to the tray.
    HideToTray,
    /// Stop the engine and leave.
    Quit,
    Nothing,
}

/// Only the main window is kept from closing, and only its destruction
/// ends the application.
pub open spec fn window_action(label: Seq<char>, event: WindowEventKind) -> WindowAction {
    if label == "main"@ {
        match event {
            WindowEventKind::CloseRequested => WindowAction::HideToTray,
            WindowEventKind::Destroyed => WindowAction::Quit,
            WindowEventKind::Other => WindowAction::Nothing,
        }
    } else {
        WindowAction::Nothing
    }
}

pub fn on_window_event(label: &str, event: WindowEventKind) -> (action: WindowAction)
    ensures
        action == window_action(label@, event),
{
    if same_text(label, "main") {
        match event {
            WindowEventKind::CloseRequested => WindowAction::HideToTray,
            WindowEventKind::Destroyed => WindowAction::Quit,
            WindowEventKind::Other => WindowAction::Nothing,
        }
    } else {
        WindowAction::Nothing
    }
}

/// Whether a run event shows the main window again: on macOS, when the
/// application is reopened while none of its windows is visible.
pub fn on_run_event(platform: Platform, reopened: bool, has_visible_windows: bool) -> (show: bool)
    ensures
        show == (platform == Platform::MacOs && reopened && !has_visible_windows),
{
    match platform {
        Platform::MacOs => reopened && !has_visible_windows,
        _ => false,
    }
}

/// Whether the main window is taken out of the minimised state before it
/// is shown.
pub fn unminimize_on_show(platform: Platform) -> (unminimize: bool)
    ensures
        unminimize == (platform != Platform::MacOs),
{
    match platform {
        Platform::MacOs => false,
        _ => true,
    }
}

/// Whether the application leaves after the stop that a quit makes: only
/// if the stop ended well.
pub fn leaves_after_stop(stopped: &Result<Completion, CoreError>) -> (leave: bool)
    ensures
        leave == stopped is Ok,
{
    stopped.is_ok()
}

/// Drains the log lines of the level that `is_error` asks for.
pub fn read_logs(app_data: &mut AppData, is_error: bool) -> (text: String)
    ensures
        text@ == joined(old(app_data)@.lines(level(is_error))),
        final(app_data)@ == old(app_data)@.drained(level(is_error)),
{
    let log_type = if is_error {
        LogType::Error
    } else {
        LogType::Info
    };
    app_data.read_cleared(log_type)
}

/// The level that the flag of `read_logs` asks for.
pub open spec fn level(is_error: bool) -> LogType {
    if is_error {
        LogType::Error
    } else {
        LogType::Info
    }
}

/// The program that opens a directory in the platform's file manager.
pub fn directory_opener(platform: Platform) -> (program: String)
    ensures
        program@ == match platform {
            Platform::MacOs => "open"@,
            Platform::Windows => "explorer"@,
            Platform::Linux => "xdg-open"@,
        },
{
    match platform {
        Platform::MacOs => String::from_str("open"),
        Platform::Windows => String::from_str("explorer"),
        Platform::Linux => String::from_str("xdg-open"),
    }
}

/// The address of the page that a window tagged `window_tag` loads.
pub fn window_url(window_tag: &str) -> (url: String)
    ensures
        url@ == "index.html?windowTag="@ + window_tag@,
{
    String::from_str("index.html?windowTag=").concat(window_tag)
}

/// The user agent that the application reports; a platform without a
/// locale counts as `en-US`.
pub open spec fn user_agent_text(
    version: Seq<char>,
    os: Seq<char>,
    arch: Seq<char>,
    locale: Option<Seq<char>>,
) -> Seq<char> {
    "OneBox/"@ + version + " (Tauri; "@ + os + "/"@ + arch + "; "@ + match locale {
        Some(name) => name,
        None => "en-US"@,
    } + ")"@
}

/// The user agent that the application reports.
pub fn user_agent(version: &str, os: &str, arch: &str, locale: Option<&str>) -> (agent: String)
    ensures
        agent@ == user_agent_text(
            version@,
            os@,
            arch@,
            match locale {
                Some(name) => Some(name@),
                None => None,
            },
        ),
{
    let name = match locale {
        Some(name) => name,
        None => "en-US",
    };
    String::from_str("OneBox/").concat(version).concat(" (Tauri; ").concat(os).concat("/").concat(
        arch,
    ).concat("; ").concat(name).concat(")")
}

/// Whether a file of the resources is copied to the configuration
/// directory: database files only, and never over one that is there.
pub fn copies_database_file(is_file: bool, extension: Option<&str>, target_exists: bool) -> (copy:
    bool)
    ensures
        copy == (is_file && !target_exists && match extension {
            Some(name) => name@ == "db"@,
            None => false,
        }),
{
    match extension {
        Some(name) => is_file && !target_exists && same_text(name, "db"),
        None => false,
    }
}

} // verus!
