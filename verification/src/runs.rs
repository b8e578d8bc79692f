//! Whole runs of the sequences: the effects a sequence asks for, one after
//! the other, when it is handed a list of outcomes, and what holds of
//! such runs.

use crate::effect::{Completion, CoreErrorView, EffectView, OutcomeView, Platform, StepView};
use crate::reload::{reload_first, reload_next, reload_starting, reload_stopping, ReloadTaskView};
use crate::session::{ProxyMode, Session};
use crate::start::{start_first, start_next, StartTaskView};
use crate::stop::{stop_first, stop_next, StopTask, STOP_GRACE_MILLIS};
use vstd::prelude::*;

verus! {

/// What came of running a sequence on a list of outcomes.
pub struct Run {
    /// The effects asked for, in their order.
    pub effects: Seq<EffectView>,
    /// How the sequence ended; `None` where the outcomes ran out first.
    pub result: Option<Result<Completion, CoreErrorView>>,
    /// The record after the last step.
    pub record: Session,
    /// The outcomes that were not used.
    pub rest: Seq<OutcomeView>,
}

impl Run {
    /// The run of a sequence that has ended.
    pub open spec fn ended(
        result: Result<Completion, CoreErrorView>,
        record: Session,
        rest: Seq<OutcomeView>,
    ) -> Run {
        Run { effects: Seq::empty(), result: Some(result), record, rest }
    }

    /// The run of a sequence that asked for an effect and got no outcome.
    pub open spec fn waiting(effect: EffectView, record: Session) -> Run {
        Run { effects: seq![effect], result: None, record, rest: Seq::empty() }
    }

    /// The run that begins with `effect` and goes on as `self`.
    pub open spec fn after(self, effect: EffectView) -> Run {
        Run { effects: seq![effect] + self.effects, ..self }
    }
}

/// The run of a stop from `step` on. A stop that has begun leaves the
/// record as it is.
pub open spec fn stop_run(
    step: StepView<StopTask>,
    record: Session,
    outcomes: Seq<OutcomeView>,
    platform: Platform,
) -> Run
    decreases outcomes.len(),
{
    match step {
        StepView::Finish { result } => Run::ended(result, record, outcomes),
        StepView::Perform { task, effect } => if outcomes.len() == 0 {
            Run::waiting(effect, record)
        } else {
            stop_run(
                stop_next(task, outcomes.first(), platform),
                record,
                outcomes.drop_first(),
                platform,
            ).after(effect)
        },
    }
}

/// The run of a start from `step` on.
pub open spec fn start_run(
    step: StepView<StartTaskView>,
    record: Session,
    outcomes: Seq<OutcomeView>,
    platform: Platform,
) -> Run
    decreases outcomes.len(),
{
    match step {
        StepView::Finish { result } => Run::ended(result, record, outcomes),
        StepView::Perform { task, effect } => if outcomes.len() == 0 {
            Run::waiting(effect, record)
        } else {
            let (next, changed) = start_next(task, record, outcomes.first(), platform);
            start_run(next, changed, outcomes.drop_first(), platform).after(effect)
        },
    }
}

/// The run of a reload from `step` on.
pub open spec fn reload_run(
    step: StepView<ReloadTaskView>,
    record: Session,
    outcomes: Seq<OutcomeView>,
    platform: Platform,
) -> Run
    decreases outcomes.len(),
{
    match step {
        StepView::Finish { result } => Run::ended(result, record, outcomes),
        StepView::Perform { task, effect } => if outcomes.len() == 0 {
            Run::waiting(effect, record)
        } else {
            let (next, changed) = reload_next(task, record, outcomes.first(), platform);
            reload_run(next, changed, outcomes.drop_first(), platform).after(effect)
        },
    }
}

/// How the start that a restart makes ends the reload.
pub open spec fn restart_result(result: Option<Result<Completion, CoreErrorView>>) -> Option<
    Result<Completion, CoreErrorView>,
> {
    match result {
        Some(Ok(_)) => Some(Ok(Completion::Restarted)),
        Some(Err(error)) => Some(Err(CoreErrorView::Restart { message: error.message() })),
        None => None,
    }
}

/// The run of a start, seen as the second half of a restart.
pub open spec fn as_restart(run: Run) -> Run {
    Run { result: restart_result(run.result), ..run }
}

/// One stop followed by one start: the run of the stop from `step` on and,
/// if it ends well, the run of a start of `config_path` in `mode` on the
/// outcomes that the stop left. A stop that fails, or that the outcomes
/// do not carry to its end, is the whole run.
pub open spec fn stop_then_start(
    step: StepView<StopTask>,
    record: Session,
    config_path: Seq<char>,
    mode: ProxyMode,
    outcomes: Seq<OutcomeView>,
    platform: Platform,
) -> Run {
    let stopped = stop_run(step, record, outcomes, platform);
    match stopped.result {
        Some(Ok(_)) => {
            let started = as_restart(
                start_run(
                    start_first(record, config_path, mode, platform),
                    Session::empty(),
                    stopped.rest,
                    platform,
                ),
            );
            Run { effects: stopped.effects + started.effects, ..started }
        },
        _ => stopped,
    }
}

/// While a restart starts, its run is that of the start.
pub proof fn lemma_restart_runs_start(
    step: StepView<StartTaskView>,
    record: Session,
    outcomes: Seq<OutcomeView>,
    platform: Platform,
)
    ensures
        reload_run(reload_starting(step), record, outcomes, platform) == as_restart(
            start_run(step, record, outcomes, platform),
        ),
    decreases outcomes.len(),
{
    match step {
        StepView::Finish { result } => {},
        StepView::Perform { task, effect } => {
            if outcomes.len() > 0 {
                let (next, changed) = start_next(task, record, outcomes.first(), platform);
                lemma_restart_runs_start(next, changed, outcomes.drop_first(), platform);
            }
        },
    }
}

/// While a restart stops, its run is that of the stop, followed by that
/// of the start.
pub proof fn lemma_restart_runs_stop_then_start(
    step: StepView<StopTask>,
    record: Session,
    config_path: Seq<char>,
    mode: ProxyMode,
    outcomes: Seq<OutcomeView>,
    platform: Platform,
)
    ensures
        ({
            let (lifted, changed) = reload_stopping(step, record, config_path, mode, platform);
            reload_run(lifted, changed, outcomes, platform) == stop_then_start(
                step,
                record,
                config_path,
                mode,
                outcomes,
                platform,
            )
        }),
    decreases outcomes.len(),
{
    match step {
        StepView::Finish { result: Err(error) } => {},
        StepView::Finish { result: Ok(_) } => {
            let first = start_first(record, config_path, mode, platform);
            lemma_restart_runs_start(first, Session::empty(), outcomes, platform);
            let started = as_restart(start_run(first, Session::empty(), outcomes, platform));
            assert(Seq::<EffectView>::empty() + started.effects =~= started.effects);
        },
        StepView::Perform { task, effect } => {
            if outcomes.len() > 0 {
                let next = stop_next(task, outcomes.first(), platform);
                let later = outcomes.drop_first();
                lemma_restart_runs_stop_then_start(next, record, config_path, mode, later, platform);
                let stopped = stop_run(next, record, later, platform);
                match stopped.result {
                    Some(Ok(_)) => {
                        let started = as_restart(
                            start_run(
                                start_first(record, config_path, mode, platform),
                                Session::empty(),
                                stopped.rest,
                                platform,
                            ),
                        );
                        assert((seq![effect] + stopped.effects) + started.effects =~= seq![effect]
                            + (stopped.effects + started.effects));
                    },
                    _ => {},
                }
            }
        },
    }
}

/// Where signals are not delivered, the reload of a live session in the
/// mode asked for is exactly one stop followed by exactly one start: its
/// run is that of the stop of the live session and then, if the stop ended
/// well, that of a start with the configuration path and the mode that
/// were committed, and it asks for no effect besides theirs.
pub proof fn lemma_reload_by_restart(
    session: Session,
    is_tun: bool,
    outcomes: Seq<OutcomeView>,
    platform: Platform,
)
    requires
        !platform.posix(),
        session.well_formed(),
        session.mode == Some(ProxyMode::of_flag(is_tun)),
    ensures
        ({
            let (step, record) = reload_first(session, is_tun, platform);
            reload_run(step, record, outcomes, platform) == stop_then_start(
                stop_first(session.snapshot(), platform),
                Session::empty(),
                session.config_path.unwrap(),
                ProxyMode::of_flag(is_tun),
                outcomes,
                platform,
            )
        }),
{
    lemma_restart_runs_stop_then_start(
        stop_first(session.snapshot(), platform),
        Session::empty(),
        session.config_path.unwrap(),
        ProxyMode::of_flag(is_tun),
        outcomes,
        platform,
    );
}

/// A stop of the empty record, run to its end, waits the grace period,
/// notifies and ends well, whatever the two outcomes are.
pub proof fn lemma_stop_of_nothing(
    record: Session,
    outcomes: Seq<OutcomeView>,
    platform: Platform,
)
    requires
        outcomes.len() >= 2,
    ensures
        stop_run(stop_first(Session::empty().snapshot(), platform), record, outcomes, platform) == (
        Run {
            effects: seq![EffectView::Sleep { millis: STOP_GRACE_MILLIS }, EffectView::Notify],
            result: Some(Ok(Completion::Stopped)),
            record,
            rest: outcomes.subrange(2, outcomes.len() as int),
        }),
{
    reveal_with_fuel(stop_run, 3);
    let run = stop_run(stop_first(Session::empty().snapshot(), platform), record, outcomes, platform);
    assert(run.effects =~= seq![EffectView::Sleep { millis: STOP_GRACE_MILLIS }, EffectView::Notify]);
    assert(run.rest =~= outcomes.subrange(2, outcomes.len() as int));
}

/// A stop run on five outcomes or more has ended.
pub proof fn lemma_stop_run_ends(
    session: Session,
    record: Session,
    outcomes: Seq<OutcomeView>,
    platform: Platform,
)
    requires
        outcomes.len() >= 5,
    ensures
        stop_run(stop_first(session.snapshot(), platform), record, outcomes, platform).result
            is Some,
{
    reveal_with_fuel(stop_run, 6);
}

} // verus!
