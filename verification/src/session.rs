//! The session record: what is running, in which mode, and under which
//! secret. It is changed only through three atomic operations.

use crate::text::text_of;
use vstd::prelude::*;

verus! {

/// The two mutually exclusive operating modes of the engine.
#[derive(Clone, Copy, Debug, PartialEq, Eq, Structural)]
pub enum ProxyMode {
    /// The operating system's proxy settings point at the local listener.
    SystemProxy,
    /// A virtual interface intercepts traffic; proxy settings stay unset.
    TunProxy,
}

impl Default for ProxyMode {
    fn default() -> (mode: ProxyMode)
        ensures
            mode == ProxyMode::SystemProxy,
    {
        ProxyMode::SystemProxy
    }
}

impl ProxyMode {
    /// The mode that a caller's `is_tun` flag asks for.
    pub open spec fn of_flag(is_tun: bool) -> ProxyMode {
        if is_tun {
            ProxyMode::TunProxy
        } else {
            ProxyMode::SystemProxy
        }
    }

    pub fn from_flag(is_tun: bool) -> (mode: ProxyMode)
        ensures
            mode == ProxyMode::of_flag(is_tun),
    {
        if is_tun {
            ProxyMode::TunProxy
        } else {
            ProxyMode::SystemProxy
        }
    }

    pub fn is_tun(&self) -> (tun: bool)
        ensures
            tun == (*self == ProxyMode::TunProxy),
    {
        match self {
            ProxyMode::TunProxy => true,
            ProxyMode::SystemProxy => false,
        }
    }
}

/// Stands for exclusive ownership of one live child process. The number is
/// the key under which the surrounding program keeps the operating system's
/// handle.
#[derive(Clone, Copy, Debug, PartialEq, Eq, Structural)]
pub struct ProcessHandle {
    pub id: u64,
}

/// The mathematical content of the session record.
pub struct Session {
    pub child: Option<ProcessHandle>,
    pub mode: Option<ProxyMode>,
    pub secret: Option<Seq<char>>,
    pub config_path: Option<Seq<char>>,
}

/// What a stop takes out of the record.
pub struct SnapshotView {
    pub mode: Option<ProxyMode>,
    pub secret: Option<Seq<char>>,
    pub child: Option<ProcessHandle>,
}

impl Session {
    /// The record with no session in it.
    pub open spec fn empty() -> Session {
        Session { child: None, mode: None, secret: None, config_path: None }
    }

    pub open spec fn is_empty(self) -> bool {
        self == Session::empty()
    }

    /// A handle is held only under a committed mode, a secret only in TUN
    /// mode, and a configuration path exactly while a mode is committed.
    pub open spec fn well_formed(self) -> bool {
        &&& self.child.is_some() ==> self.mode.is_some()
        &&& self.secret.is_some() ==> self.mode == Some(ProxyMode::TunProxy)
        &&& self.config_path.is_some() <==> self.mode.is_some()
    }

    /// The record after a session was installed. A secret offered for a
    /// session that is not in TUN mode is not kept.
    pub open spec fn committed(
        mode: ProxyMode,
        secret: Option<Seq<char>>,
        config_path: Seq<char>,
        child: Option<ProcessHandle>,
    ) -> Session {
        Session {
            child,
            mode: Some(mode),
            secret: if mode == ProxyMode::TunProxy {
                secret
            } else {
                None
            },
            config_path: Some(config_path),
        }
    }

    /// What a stop finds in the record.
    pub open spec fn snapshot(self) -> SnapshotView {
        SnapshotView { mode: self.mode, secret: self.secret, child: self.child }
    }

    /// Whether a termination notice bound to `expected` still belongs to
    /// the session in the record.
    pub open spec fn matches(self, expected: ProxyMode) -> bool {
        self.mode == Some(expected)
    }

    /// The record after a termination notice bound to `expected` was
    /// handled: emptied if the live mode is still `expected`, else as it was.
    pub open spec fn cleared_if(self, expected: ProxyMode) -> Session {
        if self.matches(expected) {
            Session::empty()
        } else {
            self
        }
    }
}

/// The values that `snapshot_and_clear` hands to a stop.
#[derive(Debug, PartialEq, Eq)]
pub struct Snapshot {
    pub mode: Option<ProxyMode>,
    pub secret: Option<String>,
    pub child: Option<ProcessHandle>,
}

impl View for Snapshot {
    type V = SnapshotView;

    open spec fn view(&self) -> SnapshotView {
        SnapshotView { mode: self.mode, secret: text_of(self.secret), child: self.child }
    }
}

/// The single record of the running session. Each method is one critical
/// section: the caller holds the lock for the length of the call and no
/// longer.
#[derive(Debug)]
pub struct ProcessManager {
    child: Option<ProcessHandle>,
    current_mode: Option<ProxyMode>,
    tun_password: Option<String>,
    config_path: Option<String>,
}

impl View for ProcessManager {
    type V = Session;

    closed spec fn view(&self) -> Session {
        Session {
            child: self.child,
            mode: self.current_mode,
            secret: text_of(self.tun_password),
            config_path: text_of(self.config_path),
        }
    }
}

impl ProcessManager {
    #[verifier::type_invariant]
    spec fn inv(self) -> bool {
        self@.well_formed()
    }

    /// The record as it is at start-up: nothing in it.
    pub fn new() -> (manager: ProcessManager)
        ensures
            manager@ == Session::empty(),
    {
        ProcessManager { child: None, current_mode: None, tun_password: None, config_path: None }
    }

    /// Empties the record and returns what was in it.
    pub fn snapshot_and_clear(&mut self) -> (taken: Snapshot)
        ensures
            taken@ == old(self)@.snapshot(),
            final(self)@ == Session::empty(),
            old(self)@.well_formed(),
    {
        proof {
            use_type_invariant(&*self);
        }
        let mut previous = ProcessManager::new();
        core::mem::swap(self, &mut previous);
        Snapshot {
            mode: previous.current_mode,
            secret: previous.tun_password,
            child: previous.child,
        }
    }

    /// Installs a session in place of whatever the record held.
    pub fn commit(
        &mut self,
        mode: ProxyMode,
        secret: Option<String>,
        config_path: String,
        child: Option<ProcessHandle>,
    )
        ensures
            final(self)@ == Session::committed(mode, text_of(secret), config_path@, child),
    {
        let kept = match mode {
            ProxyMode::TunProxy => secret,
            ProxyMode::SystemProxy => None,
        };
        *self = ProcessManager {
            child,
            current_mode: Some(mode),
            tun_password: kept,
            config_path: Some(config_path),
        };
    }

    /// Empties the record if its mode is still `expected`, and says whether
    /// it did.
    pub fn compare_and_clear_if(&mut self, expected: ProxyMode) -> (cleared: bool)
        ensures
            cleared == old(self)@.matches(expected),
            final(self)@ == old(self)@.cleared_if(expected),
            old(self)@.well_formed(),
            final(self)@.well_formed(),
    {
        proof {
            use_type_invariant(&*self);
        }
        let live = match self.current_mode {
            Some(mode) => mode == expected,
            None => false,
        };
        if live {
            *self = ProcessManager::new();
        }
        live
    }

    /// The mode of the live session, if there is one.
    pub fn current_mode(&self) -> (mode: Option<ProxyMode>)
        ensures
            mode == self@.mode,
            self@.well_formed(),
    {
        proof {
            use_type_invariant(self);
        }
        self.current_mode
    }

    /// The secret of the live session, if it has one.
    pub fn secret(&self) -> (secret: Option<String>)
        ensures
            text_of(secret) == self@.secret,
            self@.well_formed(),
    {
        proof {
            use_type_invariant(self);
        }
        match &self.tun_password {
            Some(s) => Some(s.clone()),
            None => None,
        }
    }

    /// The configuration path of the live session, if there is one.
    pub fn config_path(&self) -> (path: Option<String>)
        ensures
            text_of(path) == self@.config_path,
            self@.well_formed(),
    {
        proof {
            use_type_invariant(self);
        }
        match &self.config_path {
            Some(s) => Some(s.clone()),
            None => None,
        }
    }

    /// The handle of the managed process, if one is held.
    pub fn child(&self) -> (child: Option<ProcessHandle>)
        ensures
            child == self@.child,
            self@.well_formed(),
    {
        proof {
            use_type_invariant(self);
        }
        self.child
    }
}

} // verus!
