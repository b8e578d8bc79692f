//! The health probe: whether the engine answers on its control port. It
//! never looks at the session record, since another instance of the
//! supervisor may have started the engine.

use vstd::prelude::*;
use vstd::string::StringExecFns;

verus! {

/// The port of the engine's control API on the loopback address.
pub const CONTROL_PORT: u16 = 9191;

/// The port of the proxy listener on the loopback address.
pub const LISTENER_PORT: u16 = 6789;

/// How long the connection attempt may take, in milliseconds.
pub const CONNECT_TIMEOUT_MILLIS: u64 = 100;

/// How long the request may take, in milliseconds.
pub const REQUEST_TIMEOUT_MILLIS: u64 = 1000;

/// The status with which the control API reports that it is up.
pub const STATUS_OK: u16 = 200;

/// What the probe wants next.
#[derive(Debug, PartialEq, Eq)]
pub enum ProbeStep {
    /// Try to connect to the control port within `millis`.
    Connect { port: u16, millis: u64 },
    /// Send the authenticated request within `millis`.
    Request { authorization: String, millis: u64 },
    /// The probe is over.
    Verdict { running: bool },
}

pub enum ProbeStepView {
    Connect { port: u16, millis: u64 },
    Request { authorization: Seq<char>, millis: u64 },
    Verdict { running: bool },
}

impl View for ProbeStep {
    type V = ProbeStepView;

    open spec fn view(&self) -> ProbeStepView {
        match *self {
            ProbeStep::Connect { port, millis } => ProbeStepView::Connect { port, millis },
            ProbeStep::Request { authorization, millis } => ProbeStepView::Request {
                authorization: authorization@,
                millis,
            },
            ProbeStep::Verdict { running } => ProbeStepView::Verdict { running },
        }
    }
}

/// The value of the authorization header for `secret`.
pub open spec fn bearer(secret: Seq<char>) -> Seq<char> {
    "Bearer "@ + secret
}

/// The verdict of a whole probe: the engine runs if the port took the
/// connection and the request was answered with the status for success.
/// `status` is `None` where the request failed or was not made.
pub open spec fn running(connected: bool, status: Option<u16>) -> bool {
    connected && status == Some(STATUS_OK)
}

/// The first phase: the fast connection attempt.
pub fn probe_begin() -> (step: ProbeStep)
    ensures
        step@ == (ProbeStepView::Connect { port: CONTROL_PORT, millis: CONNECT_TIMEOUT_MILLIS }),
{
    ProbeStep::Connect { port: CONTROL_PORT, millis: CONNECT_TIMEOUT_MILLIS }
}

/// After the connection attempt: a port that did not take it ends the
/// probe, with no request made.
pub fn probe_connected(connected: bool, secret: &str) -> (step: ProbeStep)
    ensures
        step@ == if connected {
            ProbeStepView::Request { authorization: bearer(secret@), millis: REQUEST_TIMEOUT_MILLIS }
        } else {
            ProbeStepView::Verdict { running: false }
        },
{
    if connected {
        let authorization = String::from_str("Bearer ").concat(secret);
        ProbeStep::Request { authorization, millis: REQUEST_TIMEOUT_MILLIS }
    } else {
        ProbeStep::Verdict { running: false }
    }
}

/// After the request: only the status for success counts as running.
pub fn probe_responded(status: Option<u16>) -> (step: ProbeStep)
    ensures
        step@ == (ProbeStepView::Verdict { running: running(true, status) }),
{
    let up = match status {
        Some(code) => code == STATUS_OK,
        None => false,
    };
    ProbeStep::Verdict { running: up }
}

/// The verdict of a whole probe from what its two phases found.
pub fn is_running(connected: bool, status: Option<u16>) -> (up: bool)
    ensures
        up == running(connected, status),
{
    match status {
        Some(code) => connected && code == STATUS_OK,
        None => false,
    }
}

} // verus!
