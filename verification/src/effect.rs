//! The vocabulary between the sequences and the program that runs them:
//! the effects a sequence asks for, the outcomes it is told, and the errors
//! and completions it ends with.

use crate::session::{ProcessHandle, ProxyMode};
use crate::text::text_of;
use vstd::prelude::*;
use vstd::string::StringExecFns;

verus! {

/// The platforms the supervisor runs on.
#[derive(Clone, Copy, Debug, PartialEq, Eq, Structural)]
pub enum Platform {
    Linux,
    MacOs,
    Windows,
}

impl Platform {
    /// Whether the platform delivers signals and elevates by password.
    pub open spec fn posix(self) -> bool {
        self != Platform::Windows
    }

    pub fn is_posix(&self) -> (posix: bool)
        ensures
            posix == self.posix(),
    {
        match self {
            Platform::Windows => false,
            Platform::Linux => true,
            Platform::MacOs => true,
        }
    }
}

/// One piece of outside work that a sequence asks for.
#[derive(Debug, PartialEq, Eq)]
pub enum Effect {
    /// Ask the credential store for the password kept for `mode`.
    FetchPassword { mode: ProxyMode },
    /// Spawn the engine with the caller's privileges.
    SpawnEngine { config_path: String },
    /// Ask the platform adapter for an elevated engine and spawn it.
    SpawnPrivileged { config_path: String, secret: String },
    /// Watch the spawned process, bound to the mode it was spawned with.
    Watch { handle: ProcessHandle, mode: ProxyMode },
    /// Point the operating system's proxy settings at the listener.
    SetProxy,
    /// Take the operating system's proxy settings off the listener.
    UnsetProxy,
    /// Kill the elevated engine through the platform adapter.
    StopTun { secret: String },
    /// Ask the process to terminate.
    Terminate { handle: ProcessHandle },
    /// Terminate the process by force.
    Kill { handle: ProcessHandle },
    /// Signal the engine to reload, elevated where a secret is given.
    SignalReload { elevation: Option<String> },
    /// Wait.
    Sleep { millis: u64 },
    /// Emit the status-changed notification.
    Notify,
}

pub enum EffectView {
    FetchPassword { mode: ProxyMode },
    SpawnEngine { config_path: Seq<char> },
    SpawnPrivileged { config_path: Seq<char>, secret: Seq<char> },
    Watch { handle: ProcessHandle, mode: ProxyMode },
    SetProxy,
    UnsetProxy,
    StopTun { secret: Seq<char> },
    Terminate { handle: ProcessHandle },
    Kill { handle: ProcessHandle },
    SignalReload { elevation: Option<Seq<char>> },
    Sleep { millis: u64 },
    Notify,
}

impl View for Effect {
    type V = EffectView;

    open spec fn view(&self) -> EffectView {
        match *self {
            Effect::FetchPassword { mode } => EffectView::FetchPassword { mode },
            Effect::SpawnEngine { config_path } => EffectView::SpawnEngine {
                config_path: config_path@,
            },
            Effect::SpawnPrivileged { config_path, secret } => EffectView::SpawnPrivileged {
                config_path: config_path@,
                secret: secret@,
            },
            Effect::Watch { handle, mode } => EffectView::Watch { handle, mode },
            Effect::SetProxy => EffectView::SetProxy,
            Effect::UnsetProxy => EffectView::UnsetProxy,
            Effect::StopTun { secret } => EffectView::StopTun { secret: secret@ },
            Effect::Terminate { handle } => EffectView::Terminate { handle },
            Effect::Kill { handle } => EffectView::Kill { handle },
            Effect::SignalReload { elevation } => EffectView::SignalReload {
                elevation: text_of(elevation),
            },
            Effect::Sleep { millis } => EffectView::Sleep { millis },
            Effect::Notify => EffectView::Notify,
        }
    }
}

/// What came of the effect a sequence asked for last.
#[derive(Debug, PartialEq, Eq)]
pub enum Outcome {
    /// The effect was performed and has nothing to report.
    Done,
    /// The effect failed.
    Failed { message: String },
    /// The credential store answered; an empty value means none is kept.
    Password { value: String },
    /// A process was spawned and its handle retained.
    Spawned { handle: ProcessHandle },
    /// An elevated process was started that yields no handle.
    Unmanaged,
}

pub enum OutcomeView {
    Done,
    Failed { message: Seq<char> },
    Password { value: Seq<char> },
    Spawned { handle: ProcessHandle },
    Unmanaged,
}

impl View for Outcome {
    type V = OutcomeView;

    open spec fn view(&self) -> OutcomeView {
        match *self {
            Outcome::Done => OutcomeView::Done,
            Outcome::Failed { message } => OutcomeView::Failed { message: message@ },
            Outcome::Password { value } => OutcomeView::Password { value: value@ },
            Outcome::Spawned { handle } => OutcomeView::Spawned { handle },
            Outcome::Unmanaged => OutcomeView::Unmanaged,
        }
    }
}

/// Why a sequence ended without doing what it was asked.
#[derive(Debug, PartialEq, Eq)]
pub enum CoreError {
    /// No credential is stored: the caller has to ask for one and retry.
    RequirePrivilege,
    /// Privilege was refused, or the credential store failed.
    Privilege { message: String },
    /// The operating system did not create the process.
    Spawn { message: String },
    /// Setting or unsetting the proxy configuration failed.
    ProxyConfig { message: String },
    /// A reload or kill signal was not delivered.
    Signal { message: String },
    /// A reload was asked for and no session is live.
    NoRunningProcess,
    /// A reload was asked for in a mode other than the live one.
    ModeMismatch,
    /// The start that a reload by restart made has failed.
    Restart { message: String },
    /// The outcome handed in does not answer the effect asked for.
    Unexpected,
}

pub enum CoreErrorView {
    RequirePrivilege,
    Privilege { message: Seq<char> },
    Spawn { message: Seq<char> },
    ProxyConfig { message: Seq<char> },
    Signal { message: Seq<char> },
    NoRunningProcess,
    ModeMismatch,
    Restart { message: Seq<char> },
    Unexpected,
}

impl CoreErrorView {
    /// The text the caller of a command sees.
    pub open spec fn message(self) -> Seq<char> {
        match self {
            CoreErrorView::RequirePrivilege => "REQUIRE_PRIVILEGE"@,
            CoreErrorView::Privilege { message } => message,
            CoreErrorView::Spawn { message } => message,
            CoreErrorView::ProxyConfig { message } => message,
            CoreErrorView::Signal { message } => message,
            CoreErrorView::NoRunningProcess => "No running process found"@,
            CoreErrorView::ModeMismatch => "Requested mode does not match the running mode"@,
            CoreErrorView::Restart { message } => "Failed to reload config by restarting process: "@
                + message,
            CoreErrorView::Unexpected => "Unexpected outcome"@,
        }
    }
}

impl View for CoreError {
    type V = CoreErrorView;

    open spec fn view(&self) -> CoreErrorView {
        match *self {
            CoreError::RequirePrivilege => CoreErrorView::RequirePrivilege,
            CoreError::Privilege { message } => CoreErrorView::Privilege { message: message@ },
            CoreError::Spawn { message } => CoreErrorView::Spawn { message: message@ },
            CoreError::ProxyConfig { message } => CoreErrorView::ProxyConfig { message: message@ },
            CoreError::Signal { message } => CoreErrorView::Signal { message: message@ },
            CoreError::NoRunningProcess => CoreErrorView::NoRunningProcess,
            CoreError::ModeMismatch => CoreErrorView::ModeMismatch,
            CoreError::Restart { message } => CoreErrorView::Restart { message: message@ },
            CoreError::Unexpected => CoreErrorView::Unexpected,
        }
    }
}

impl CoreError {
    /// The text the caller of a command sees. The missing credential is
    /// reported by the sentinel `REQUIRE_PRIVILEGE` and by nothing else.
    pub fn message(&self) -> (text: String)
        ensures
            text@ == self@.message(),
    {
        match self {
            CoreError::RequirePrivilege => String::from_str("REQUIRE_PRIVILEGE"),
            CoreError::Privilege { message } => message.clone(),
            CoreError::Spawn { message } => message.clone(),
            CoreError::ProxyConfig { message } => message.clone(),
            CoreError::Signal { message } => message.clone(),
            CoreError::NoRunningProcess => String::from_str("No running process found"),
            CoreError::ModeMismatch => String::from_str(
                "Requested mode does not match the running mode",
            ),
            CoreError::Restart { message } => String::from_str(
                "Failed to reload config by restarting process: ",
            ).concat(message.as_str()),
            CoreError::Unexpected => String::from_str("Unexpected outcome"),
        }
    }
}

/// What a sequence has done when it ends well.
#[derive(Clone, Copy, Debug, PartialEq, Eq, Structural)]
pub enum Completion {
    Started,
    Stopped,
    /// The engine was signalled and keeps its listener.
    Reloaded,
    /// The engine was stopped and started again.
    Restarted,
}

impl Completion {
    pub open spec fn text(self) -> Seq<char> {
        match self {
            Completion::Started => "Started"@,
            Completion::Stopped => "Stopped"@,
            Completion::Reloaded => "Configuration reloaded successfully"@,
            Completion::Restarted => "Configuration reloaded successfully by restarting process"@,
        }
    }

    /// The text the caller of a command sees.
    pub fn message(&self) -> (text: String)
        ensures
            text@ == self.text(),
    {
        match self {
            Completion::Started => String::from_str("Started"),
            Completion::Stopped => String::from_str("Stopped"),
            Completion::Reloaded => String::from_str("Configuration reloaded successfully"),
            Completion::Restarted => String::from_str(
                "Configuration reloaded successfully by restarting process",
            ),
        }
    }
}

/// The view of a sequence's result.
pub open spec fn result_view(result: Result<Completion, CoreError>) -> Result<
    Completion,
    CoreErrorView,
> {
    match result {
        Ok(done) => Ok(done),
        Err(error) => Err(error@),
    }
}

/// What a sequence wants next: an effect performed and its outcome handed
/// to the task that goes on, or nothing more.
#[derive(Debug, PartialEq, Eq)]
pub enum Step<T> {
    Perform { task: T, effect: Effect },
    Finish { result: Result<Completion, CoreError> },
}

pub enum StepView<V> {
    Perform { task: V, effect: EffectView },
    Finish { result: Result<Completion, CoreErrorView> },
}

impl<T: View> View for Step<T> {
    type V = StepView<T::V>;

    open spec fn view(&self) -> StepView<T::V> {
        match *self {
            Step::Perform { task, effect } => StepView::Perform { task: task@, effect: effect@ },
            Step::Finish { result } => StepView::Finish { result: result_view(result) },
        }
    }
}

impl OutcomeView {
    /// Whether the effect is reported to have failed.
    pub open spec fn failed(self) -> bool {
        self is Failed
    }
}

} // verus!
