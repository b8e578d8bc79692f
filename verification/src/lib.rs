//! Supervisor logic for a locally spawned proxy engine.
//!
//! The crate holds the decisions of the supervisor: the session record and
//! its atomic operations, the start, stop and reload sequences as step
//! functions from a state and the outcome of the last effect to the next
//! effect, the termination monitor with its mode guard, the health probe's
//! verdict, the privilege gate and the bounded log sink. Performing the
//! effects (spawning, signalling, sleeping, network calls) is left to the
//! program around the library. What holds of the sequences together is
//! stated and proved in `laws` and `runs`.

pub mod effect;
pub mod events;
pub mod icon;
pub mod lan;
pub mod laws;
pub mod monitor;
pub mod privilege;
pub mod probe;
pub mod reload;
pub mod runs;
pub mod session;
pub mod start;
pub mod state;
pub mod stop;
pub mod text;
pub mod vpn;
