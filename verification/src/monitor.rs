//! The termination monitor: reads the events of one spawned process and,
//! when it exits on its own, cleans up the record if the record still
//! holds the session the monitor was started for.

use crate::session::{ProcessManager, ProxyMode, Session};
use crate::state::LogType;
use crate::text::{contains_bytes, occurs};
use vstd::prelude::*;
use vstd::string::StringSliceAdditionalSpecFns;

verus! {

/// Whether a line of the engine's output reports a fatal error: the marker
/// `FATAL` stands in it.
pub fn is_fatal(line: &[u8]) -> (fatal: bool)
    ensures
        fatal == occurs(line@, "FATAL".spec_bytes()),
{
    contains_bytes(line, "FATAL".as_bytes())
}

/// The kind of an event on the spawned process's stream. The line or the
/// exit status that came with it stays with the reader of the stream.
#[derive(Clone, Copy, Debug, PartialEq, Eq, Structural)]
pub enum EngineEvent {
    Stdout,
    Stderr,
    Terminated,
}

/// What the reader of the stream does with an event.
#[derive(Clone, Copy, Debug, PartialEq, Eq, Structural)]
pub struct Reaction {
    /// The level under which the event goes to the log sink.
    pub level: LogType,
    /// Whether the proxy settings are to be unset.
    pub unset_proxy: bool,
    /// Whether the status-changed notification is to be emitted.
    pub notify: bool,
}

/// The mathematical content of a monitor.
pub struct MonitorView {
    /// The mode the watched process was spawned with.
    pub mode: ProxyMode,
    /// Whether the termination was seen: from then on events are only logged.
    pub draining: bool,
}

/// The reaction that only logs, under the level of the event's kind.
pub open spec fn log_only(event: EngineEvent) -> Reaction {
    Reaction {
        level: match event {
            EngineEvent::Stderr => LogType::Error,
            _ => LogType::Info,
        },
        unset_proxy: false,
        notify: false,
    }
}

/// The monitor, the record and the reaction after an event. Only the first
/// termination notice can change the record, and only if the live mode is
/// still the one the monitor is bound to; then the proxy settings are unset
/// if that mode is system proxy, and the notification is emitted.
pub open spec fn monitor_next(monitor: MonitorView, session: Session, event: EngineEvent) -> (
    MonitorView,
    Session,
    Reaction,
) {
    if event == EngineEvent::Terminated && !monitor.draining {
        let cleared = session.matches(monitor.mode);
        (
            MonitorView { mode: monitor.mode, draining: true },
            session.cleared_if(monitor.mode),
            Reaction {
                level: LogType::Info,
                unset_proxy: cleared && monitor.mode == ProxyMode::SystemProxy,
                notify: cleared,
            },
        )
    } else {
        (monitor, session, log_only(event))
    }
}

/// The monitor of one spawned process. It holds a copy of the mode that
/// the process was spawned with, never a reference into the record.
#[derive(Debug)]
pub struct Monitor {
    mode: ProxyMode,
    draining: bool,
}

impl View for Monitor {
    type V = MonitorView;

    closed spec fn view(&self) -> MonitorView {
        MonitorView { mode: self.mode, draining: self.draining }
    }
}

impl Monitor {
    /// A monitor bound to `mode` that has seen no termination.
    pub fn new(mode: ProxyMode) -> (monitor: Monitor)
        ensures
            monitor@ == (MonitorView { mode, draining: false }),
    {
        Monitor { mode, draining: false }
    }

    /// The mode the monitor is bound to.
    pub fn mode(&self) -> (mode: ProxyMode)
        ensures
            mode == self@.mode,
    {
        self.mode
    }

    /// Whether the termination was seen.
    pub fn is_draining(&self) -> (draining: bool)
        ensures
            draining == self@.draining,
    {
        self.draining
    }

    /// Handles one event. The record is touched in one critical section,
    /// and only by the compare-and-clear.
    pub fn on_event(&mut self, manager: &mut ProcessManager, event: EngineEvent) -> (reaction:
        Reaction)
        ensures
            (final(self)@, final(manager)@, reaction) == monitor_next(
                old(self)@,
                old(manager)@,
                event,
            ),
    {
        match event {
            EngineEvent::Terminated => {
                if self.draining {
                    Reaction { level: LogType::Info, unset_proxy: false, notify: false }
                } else {
                    self.draining = true;
                    let cleared = manager.compare_and_clear_if(self.mode);
                    Reaction {
                        level: LogType::Info,
                        unset_proxy: cleared && self.mode.is_tun() == false,
                        notify: cleared,
                    }
                }
            },
            EngineEvent::Stdout => Reaction {
                level: LogType::Info,
                unset_proxy: false,
                notify: false,
            },
            EngineEvent::Stderr => Reaction {
                level: LogType::Error,
                unset_proxy: false,
                notify: false,
            },
        }
    }
}

} // verus!
