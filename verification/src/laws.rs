//! What holds of the sequences together: the record stays well formed
//! under every interleaving, a second stop is a no-op that succeeds, a
//! stale termination notice leaves a newer session alone, a reload in the
//! wrong mode does nothing, and every sequence ends.

use crate::effect::{Completion, CoreErrorView, EffectView, OutcomeView, Platform, StepView};
use crate::monitor::{log_only, monitor_next, EngineEvent, MonitorView};
use crate::reload::{reload_first, reload_next, ReloadTaskView};
use crate::session::{ProcessHandle, ProxyMode, Session};
use crate::start::{start_first, start_next, StartPhaseView, StartTaskView};
use crate::stop::{stop_first, stop_next, StopTask, STOP_GRACE_MILLIS};
use vstd::prelude::*;

verus! {

/// One critical section on the record: every way in which a sequence or a
/// monitor, in whatever state it is, touches the record.
pub enum Move {
    StopBegin,
    StartBegin { config_path: Seq<char>, mode: ProxyMode },
    StartResume { start: StartTaskView, outcome: OutcomeView },
    ReloadBegin { is_tun: bool },
    ReloadResume { reload: ReloadTaskView, outcome: OutcomeView },
    Event { monitor: MonitorView, event: EngineEvent },
}

impl Move {
    /// Whether the move is free of the report of a spawn that retained no
    /// handle.
    pub open spec fn managed(self) -> bool {
        match self {
            Move::StartResume { start, outcome } => !(outcome is Unmanaged),
            Move::ReloadResume { reload, outcome } => !(outcome is Unmanaged),
            _ => true,
        }
    }
}

/// The record after one move.
pub open spec fn record_after(session: Session, step: Move, platform: Platform) -> Session {
    match step {
        Move::StopBegin => Session::empty(),
        Move::StartBegin { config_path, mode } => Session::empty(),
        Move::StartResume { start, outcome } => start_next(start, session, outcome, platform).1,
        Move::ReloadBegin { is_tun } => reload_first(session, is_tun, platform).1,
        Move::ReloadResume { reload, outcome } => reload_next(reload, session, outcome, platform).1,
        Move::Event { monitor, event } => monitor_next(monitor, session, event).1,
    }
}

/// The record after a sequence of moves, in the order in which their
/// critical sections were entered.
pub open spec fn record_after_all(session: Session, moves: Seq<Move>, platform: Platform) -> Session
    decreases moves.len(),
{
    if moves.len() == 0 {
        session
    } else {
        record_after(record_after_all(session, moves.drop_last(), platform), moves.last(), platform)
    }
}

/// A handle is held exactly while a mode is committed.
pub open spec fn paired(session: Session) -> bool {
    session.child.is_some() == session.mode.is_some()
}

/// One move keeps the record well formed.
pub proof fn lemma_move_keeps_well_formed(session: Session, step: Move, platform: Platform)
    requires
        session.well_formed(),
    ensures
        record_after(session, step, platform).well_formed(),
{
}

/// One move that reports no spawn without a handle keeps handle and mode
/// paired.
pub proof fn lemma_move_keeps_paired(session: Session, step: Move, platform: Platform)
    requires
        paired(session),
        step.managed(),
    ensures
        paired(record_after(session, step, platform)),
{
}

/// However starts, stops, reloads and termination notices interleave, the
/// record is well formed after each of their critical sections: no handle
/// is held without a committed mode, and no secret outside TUN mode.
pub proof fn lemma_record_stays_well_formed(session: Session, moves: Seq<Move>, platform: Platform)
    requires
        session.well_formed(),
    ensures
        record_after_all(session, moves, platform).well_formed(),
    decreases moves.len(),
{
    if moves.len() > 0 {
        lemma_record_stays_well_formed(session, moves.drop_last(), platform);
        lemma_move_keeps_well_formed(
            record_after_all(session, moves.drop_last(), platform),
            moves.last(),
            platform,
        );
    }
}

/// However starts, stops, reloads and termination notices interleave, as
/// long as every spawn retains a handle, a handle is held exactly while a
/// mode is committed.
pub proof fn lemma_handle_and_mode_stay_paired(
    session: Session,
    moves: Seq<Move>,
    platform: Platform,
)
    requires
        paired(session),
        forall|i: int| 0 <= i < moves.len() ==> (#[trigger] moves[i]).managed(),
    ensures
        paired(record_after_all(session, moves, platform)),
    decreases moves.len(),
{
    if moves.len() > 0 {
        let earlier = moves.drop_last();
        assert forall|i: int| 0 <= i < earlier.len() implies (#[trigger] earlier[i]).managed() by {
            assert(earlier[i] == moves[i]);
        }
        lemma_handle_and_mode_stay_paired(session, earlier, platform);
        assert(moves.last() == moves[moves.len() - 1]);
        lemma_move_keeps_paired(record_after_all(session, earlier, platform), moves.last(), platform);
    }
}

/// A stop leaves the record empty, and a stop begun on the empty record
/// undoes nothing and ends well, whatever outcomes it is handed: it waits
/// the grace period, notifies, and reports that it stopped.
pub proof fn lemma_stop_twice(
    session: Session,
    platform: Platform,
    slept: OutcomeView,
    notified: OutcomeView,
)
    ensures
        record_after(session, Move::StopBegin, platform) == Session::empty(),
        record_after(Session::empty(), Move::StopBegin, platform) == Session::empty(),
        stop_first(Session::empty().snapshot(), platform) == (StepView::Perform {
            task: StopTask::Settle,
            effect: EffectView::Sleep { millis: STOP_GRACE_MILLIS },
        }),
        stop_next(StopTask::Settle, slept, platform) == (StepView::Perform {
            task: StopTask::Announce,
            effect: EffectView::Notify,
        }),
        stop_next(StopTask::Announce, notified, platform) == (StepView::<StopTask>::Finish {
            result: Ok(Completion::Stopped),
        }),
{
}

/// A termination notice that arrives after its session was replaced by one
/// in the other mode changes nothing: the newer session keeps its mode,
/// secret, path and handle, and the notice is only logged.
pub proof fn lemma_stale_termination_is_ignored(
    monitor: MonitorView,
    mode: ProxyMode,
    secret: Option<Seq<char>>,
    config_path: Seq<char>,
    child: Option<ProcessHandle>,
)
    requires
        monitor.mode != mode,
    ensures
        ({
            let newer = Session::committed(mode, secret, config_path, child);
            let (after, record, reaction) = monitor_next(monitor, newer, EngineEvent::Terminated);
            &&& record == newer
            &&& reaction == log_only(EngineEvent::Terminated)
            &&& after.draining
            &&& after.mode == monitor.mode
        }),
{
}

/// Once a monitor has seen the termination, no later event changes the
/// record or asks for more than a log line.
pub proof fn lemma_drained_monitor_only_logs(
    monitor: MonitorView,
    session: Session,
    event: EngineEvent,
)
    requires
        monitor.draining,
    ensures
        monitor_next(monitor, session, event) == (monitor, session, log_only(event)),
{
}

/// A reload asked for in a mode other than the live one ends at once with
/// the mismatch error: no effect is asked for and the record is as it was.
pub proof fn lemma_reload_mismatch_does_nothing(
    session: Session,
    live: ProxyMode,
    is_tun: bool,
    platform: Platform,
)
    requires
        session.mode == Some(live),
        live != ProxyMode::of_flag(is_tun),
    ensures
        reload_first(session, is_tun, platform) == (
            StepView::<ReloadTaskView>::Finish { result: Err(CoreErrorView::ModeMismatch) },
            session,
        ),
{
}

/// A bound on the effects that a stop between two effects still asks for.
pub open spec fn stop_rank(task: StopTask) -> nat {
    match task {
        StopTask::Network { child } => 5,
        StopTask::Privileged { child } => 5,
        StopTask::Graceful { handle } => 4,
        StopTask::Forced => 3,
        StopTask::Settle => 2,
        StopTask::Announce => 1,
    }
}

/// A bound on the effects that a start between two effects still asks for.
pub open spec fn start_rank(task: StartTaskView) -> nat {
    match task.phase {
        StartPhaseView::Draining { stop } => 6 + stop_rank(stop),
        StartPhaseView::Credential => 6,
        StartPhaseView::Spawning { secret } => 5,
        StartPhaseView::Watching { handle } => 4,
        StartPhaseView::Network { child } => 3,
        StartPhaseView::WarmUp => 2,
        StartPhaseView::RollingBack { message } => 1,
        StartPhaseView::Announce => 1,
    }
}

/// A bound on the effects that a reload between two effects still asks
/// for.
pub open spec fn reload_rank(task: ReloadTaskView) -> nat {
    match task {
        ReloadTaskView::Signalling => 1,
        ReloadTaskView::Stopping { stop, config_path, mode } => 12 + stop_rank(stop),
        ReloadTaskView::Starting { start } => start_rank(start),
    }
}

/// A stop ends: each outcome handed to it either ends it or leaves it
/// with fewer effects to ask for, and the first step leaves at most five.
pub proof fn lemma_stop_ends(
    session: Session,
    task: StopTask,
    outcome: OutcomeView,
    platform: Platform,
)
    ensures
        stop_first(session.snapshot(), platform) is Perform,
        stop_rank(stop_first(session.snapshot(), platform)->task) <= 5,
        stop_next(task, outcome, platform) is Perform ==> stop_rank(
            stop_next(task, outcome, platform)->task,
        ) < stop_rank(task),
{
}

/// A start ends: each outcome handed to it either ends it or leaves it
/// with fewer effects to ask for, and the first step leaves at most eleven.
pub proof fn lemma_start_ends(
    session: Session,
    config_path: Seq<char>,
    mode: ProxyMode,
    task: StartTaskView,
    outcome: OutcomeView,
    platform: Platform,
)
    ensures
        start_first(session, config_path, mode, platform) is Perform,
        start_rank(start_first(session, config_path, mode, platform)->task) <= 11,
        start_next(task, session, outcome, platform).0 is Perform ==> start_rank(
            start_next(task, session, outcome, platform).0->task,
        ) < start_rank(task),
{
}

/// A reload ends: each outcome handed to it either ends it or leaves it
/// with fewer effects to ask for, and the first step leaves at most
/// seventeen.
pub proof fn lemma_reload_ends(
    session: Session,
    is_tun: bool,
    task: ReloadTaskView,
    outcome: OutcomeView,
    platform: Platform,
)
    ensures
        reload_first(session, is_tun, platform).0 is Perform ==> reload_rank(
            reload_first(session, is_tun, platform).0->task,
        ) <= 17,
        reload_next(task, session, outcome, platform).0 is Perform ==> reload_rank(
            reload_next(task, session, outcome, platform).0->task,
        ) < reload_rank(task),
{
}

/// A start in TUN mode on a platform that elevates by password fails fast
/// when no credential is stored: it ends with the sentinel error, asks for
/// no spawn, and leaves the record as it was.
pub proof fn lemma_missing_credential_fails_fast(
    config_path: Seq<char>,
    session: Session,
    platform: Platform,
)
    requires
        platform.posix(),
    ensures
        start_next(
            StartTaskView {
                config_path,
                mode: ProxyMode::TunProxy,
                phase: StartPhaseView::Credential,
            },
            session,
            OutcomeView::Password { value: Seq::empty() },
            platform,
        ) == (
            StepView::<StartTaskView>::Finish { result: Err(CoreErrorView::RequirePrivilege) },
            session,
        ),
{
}

/// A network configuration that fails rolls the start back: the record is
/// emptied, the process that was spawned is killed, and the start ends
/// with the adapter's error, whatever comes of the kill.
pub proof fn lemma_failed_network_rolls_back(
    config_path: Seq<char>,
    mode: ProxyMode,
    child: Option<ProcessHandle>,
    session: Session,
    message: Seq<char>,
    killed: OutcomeView,
    platform: Platform,
)
    ensures
        ({
            let task = StartTaskView { config_path, mode, phase: StartPhaseView::Network { child } };
            let (step, record) = start_next(
                task,
                session,
                OutcomeView::Failed { message },
                platform,
            );
            let failure = StepView::<StartTaskView>::Finish {
                result: Err(CoreErrorView::ProxyConfig { message }),
            };
            &&& record == Session::empty()
            &&& match child {
                Some(handle) => {
                    &&& step is Perform
                    &&& step->effect == (EffectView::Kill { handle })
                    &&& start_next(step->task, record, killed, platform) == (failure, record)
                },
                None => step == failure,
            }
        }),
{
}

/// Where signals are delivered, the reload of a TUN session never sends an
/// unprivileged signal: the signal is elevated with the stored secret,
/// whatever it is, and where none is stored the reload ends with the
/// request for the credential. The record is as it was either way.
pub proof fn lemma_tun_reload_is_elevated(session: Session, platform: Platform)
    requires
        platform.posix(),
        session.mode == Some(ProxyMode::TunProxy),
    ensures
        ({
            let (step, record) = reload_first(session, true, platform);
            &&& record == session
            &&& match session.secret {
                Some(secret) => step == (StepView::Perform {
                    task: ReloadTaskView::Signalling,
                    effect: EffectView::SignalReload { elevation: Some(secret) },
                }),
                None => step == (StepView::<ReloadTaskView>::Finish {
                    result: Err(CoreErrorView::RequirePrivilege),
                }),
            }
        }),
{
}

/// Where signals are delivered, the reload of a session in system proxy
/// mode sends the signal without elevation.
pub proof fn lemma_plain_reload_is_not_elevated(session: Session, platform: Platform)
    requires
        platform.posix(),
        session.mode == Some(ProxyMode::SystemProxy),
    ensures
        reload_first(session, false, platform) == (
            StepView::Perform {
                task: ReloadTaskView::Signalling,
                effect: EffectView::SignalReload { elevation: None },
            },
            session,
        ),
{
}

} // verus!
