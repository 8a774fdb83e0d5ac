//! A run as a whole: the controller, both workers and the collection, and
//! what holds of every state that a run can reach.

use vstd::prelude::*;
use crate::lifecycle::next_phase;
use crate::lifecycle::signal_raised;
use crate::lifecycle::ControlEvent;
use crate::lifecycle::Phase;
use crate::monitor::MonitorView;
use crate::store::is_tick;
use crate::store::lemma_tick_keeps_the_collection;
use crate::snapshot::Observation;
use crate::snapshot::SnapshotWriter;
use crate::updater::Updater;

verus! {

/// The state of a run.
pub struct RunState {
    pub phase: Phase,
    pub updater: Updater,
    pub writer: SnapshotWriter,
    pub monitors: Seq<MonitorView>,
}

/// One step of a run, taken by the controller or by one of the workers.
pub enum RunStep {
    /// The controller takes `event`.
    Control { event: ControlEvent },
    /// The updater performs one iteration of its loop: the check, at which
    /// it finds the cancellation signal raised or not, and the tick.
    Update { cancelled: bool },
    /// The snapshot writer performs one iteration of its loop.
    Poll { tick: Observation },
}

impl RunState {
    /// A run begins idle, with workers that have not returned.
    pub open spec fn is_initial(self) -> bool {
        self.phase == Phase::Idle && !self.updater.returned && !self.writer.returned
    }

    /// No worker has returned before the cancellation signal was raised,
    /// and the run is not over before both workers have returned.
    pub open spec fn is_consistent(self) -> bool {
        &&& self.updater.returned || self.writer.returned ==> signal_raised(self.phase)
        &&& self.phase == Phase::Stopped ==> self.updater.returned && self.writer.returned
    }

    /// The cancellation signal is raised and both workers have returned.
    pub open spec fn is_shut_down(self) -> bool {
        signal_raised(self.phase) && self.updater.returned && self.writer.returned
    }

    /// `step` takes this state to `after`.
    ///
    /// The controller is told that the workers have returned only once both
    /// have. A worker runs only once it has been started, finds the signal
    /// raised only if it is raised, and may miss a raised signal for a
    /// while. The writer never touches the collection.
    pub open spec fn steps_to(self, step: RunStep, after: RunState) -> bool {
        match step {
            RunStep::Control { event } => {
                &&& event == ControlEvent::WorkersReturned ==> self.updater.returned
                    && self.writer.returned
                &&& after.phase == next_phase(self.phase, event)
                &&& after.updater == self.updater
                &&& after.writer == self.writer
                &&& after.monitors == self.monitors
            },
            RunStep::Update { cancelled } => {
                &&& self.phase != Phase::Idle
                &&& cancelled ==> signal_raised(self.phase)
                &&& after.phase == self.phase
                &&& after.updater == self.updater.after_check(cancelled)
                &&& after.updater.effect(self.monitors, after.monitors)
                &&& after.writer == self.writer
            },
            RunStep::Poll { tick } => {
                &&& self.phase != Phase::Idle
                &&& tick.cancelled ==> signal_raised(self.phase)
                &&& after.phase == self.phase
                &&& after.updater == self.updater
                &&& after.writer == self.writer.after_tick(tick)
                &&& after.monitors == self.monitors
            },
        }
    }

    /// Some step takes this state to `after`.
    pub open spec fn leads_to(self, after: RunState) -> bool {
        exists|step: RunStep| #[trigger] self.steps_to(step, after)
    }
}

/// The state at `k` leads to the state that follows it.
pub open spec fn moves_at(states: Seq<RunState>, k: int) -> bool {
    states[k].leads_to(states[k + 1])
}

/// `states` are the states of a run from its beginning, in order.
pub open spec fn is_run(states: Seq<RunState>) -> bool {
    &&& states.len() > 0
    &&& states[0].is_initial()
    &&& forall|k: int| 0 <= k < states.len() - 1 ==> #[trigger] moves_at(states, k)
}

/// A run begins in a consistent state.
pub proof fn lemma_initial_state_is_consistent(state: RunState)
    requires
        state.is_initial(),
    ensures
        state.is_consistent(),
{
}

/// Every step keeps the state consistent.
pub proof fn lemma_step_keeps_consistency(before: RunState, step: RunStep, after: RunState)
    requires
        before.is_consistent(),
        before.steps_to(step, after),
    ensures
        after.is_consistent(),
{
}

/// No step adds or removes a monitor, moves one, or changes anything of a
/// monitor but its result.
pub proof fn lemma_step_keeps_the_collection(before: RunState, step: RunStep, after: RunState)
    requires
        before.steps_to(step, after),
    ensures
        after.monitors.len() == before.monitors.len(),
        forall|i: int|
            0 <= i < before.monitors.len() ==> (#[trigger] after.monitors[i]).with_result(None)
                == before.monitors[i].with_result(None),
        after.updater.config == before.updater.config,
{
    if after.monitors != before.monitors {
        lemma_tick_keeps_the_collection(
            before.monitors,
            after.monitors,
            after.updater.config@.value_bound,
        );
    }
}

/// Once the cancellation signal is raised and both workers have returned,
/// nothing changes the collection any more: whatever step is taken, the
/// signal stays raised, both workers stay returned, and the monitors are
/// what they were.
pub proof fn lemma_nothing_changes_after_shutdown(
    before: RunState,
    step: RunStep,
    after: RunState,
)
    requires
        before.is_shut_down(),
        before.steps_to(step, after),
    ensures
        after.is_shut_down(),
        after.monitors == before.monitors,
{
}

/// Every state of a run is consistent.
pub proof fn lemma_run_is_consistent(states: Seq<RunState>, k: int)
    requires
        is_run(states),
        0 <= k < states.len(),
    ensures
        states[k].is_consistent(),
    decreases k,
{
    if k > 0 {
        lemma_run_is_consistent(states, k - 1);
        assert(moves_at(states, k - 1));
        let step = choose|step: RunStep| #[trigger] states[k - 1].steps_to(step, states[k]);
        lemma_step_keeps_consistency(states[k - 1], step, states[k]);
    }
}

/// The collection is the same collection in every state of a run: it has
/// the length it began with, and every monitor has the place and, but for
/// its result, the fields it began with. The settings do not change either.
pub proof fn lemma_run_keeps_the_collection(states: Seq<RunState>, k: int)
    requires
        is_run(states),
        0 <= k < states.len(),
    ensures
        states[k].monitors.len() == states[0].monitors.len(),
        forall|i: int|
            0 <= i < states[0].monitors.len() ==> (#[trigger] states[k].monitors[i]).with_result(
                None,
            ) == states[0].monitors[i].with_result(None),
        states[k].updater.config == states[0].updater.config,
    decreases k,
{
    if k > 0 {
        lemma_run_keeps_the_collection(states, k - 1);
        assert(moves_at(states, k - 1));
        let step = choose|step: RunStep| #[trigger] states[k - 1].steps_to(step, states[k]);
        lemma_step_keeps_the_collection(states[k - 1], step, states[k]);
    }
}

/// From the first tick of a run on, every monitor has a result with both
/// fields present and a value in `[0, bound)`, in every state that follows.
pub proof fn lemma_run_keeps_results_complete(states: Seq<RunState>, tick: int, k: int)
    requires
        is_run(states),
        0 <= tick < k < states.len(),
        is_tick(
            states[tick].monitors,
            states[tick + 1].monitors,
            states[0].updater.config@.value_bound,
        ),
    ensures
        forall|i: int|
            0 <= i < states[k].monitors.len() ==> (#[trigger] states[k].monitors[i]).is_measured()
                && states[k].monitors[i].result->0.within(states[0].updater.config@.value_bound),
    decreases k,
{
    if k > tick + 1 {
        lemma_run_keeps_results_complete(states, tick, k - 1);
        lemma_run_keeps_the_collection(states, k);
        assert(moves_at(states, k - 1));
        let step = choose|step: RunStep| #[trigger] states[k - 1].steps_to(step, states[k]);
        lemma_step_keeps_the_collection(states[k - 1], step, states[k]);
    }
}

/// From the state of a run in which the signal is raised and both workers
/// have returned, the monitors never change again. A run that is over is
/// in such a state.
pub proof fn lemma_run_is_stable_after_shutdown(states: Seq<RunState>, down: int, k: int)
    requires
        is_run(states),
        0 <= down <= k < states.len(),
        states[down].is_shut_down() || states[down].phase == Phase::Stopped,
    ensures
        states[k].is_shut_down(),
        states[k].monitors == states[down].monitors,
    decreases k,
{
    if k > down {
        lemma_run_is_stable_after_shutdown(states, down, k - 1);
        assert(moves_at(states, k - 1));
        let step = choose|step: RunStep| #[trigger] states[k - 1].steps_to(step, states[k]);
        lemma_nothing_changes_after_shutdown(states[k - 1], step, states[k]);
    } else {
        lemma_run_is_consistent(states, down);
    }
}

} // verus!
