//! The controller that starts both workers, lets them run for a fixed
//! duration, and stops them.

use vstd::prelude::*;
use crate::config::RunConfig;

verus! {

/// Where the controller stands in the life of a run.
#[derive(Clone, Copy, Debug, PartialEq, Eq)]
pub enum Phase {
    /// Nothing has been started.
    Idle,
    /// Both workers run and the run timer is counting.
    Running,
    /// The cancellation signal is raised and the workers are being awaited.
    Stopping,
    /// Both workers have returned.
    Stopped,
}

/// What the controller is told.
#[derive(Clone, Copy, Debug, PartialEq, Eq)]
pub enum ControlEvent {
    /// A populated store is at hand and the run is to begin.
    Start,
    /// The run timer has elapsed.
    DurationElapsed,
    /// Both workers have observed the cancellation signal and returned.
    WorkersReturned,
}

/// What the controller asks to be done.
#[derive(Clone, Copy, Debug, PartialEq, Eq)]
pub enum ControlAction {
    /// Clear the cancellation signal, start both workers on the shared
    /// store, and start the one timer of the run for `run_secs` seconds.
    StartWorkers { run_secs: u64 },
    /// Raise the cancellation signal, then wait for both workers to return.
    CancelAndJoin,
    /// The run is over; the collection is the caller's again.
    Finish,
    /// The event does not apply in this phase and changes nothing.
    Nothing,
}

/// How far a phase is into the run.
pub open spec fn rank(phase: Phase) -> int {
    match phase {
        Phase::Idle => 0,
        Phase::Running => 1,
        Phase::Stopping => 2,
        Phase::Stopped => 3,
    }
}

/// The cancellation signal is raised from the moment the run timer elapses.
pub open spec fn signal_raised(phase: Phase) -> bool {
    phase == Phase::Stopping || phase == Phase::Stopped
}

/// `event` applies in `phase`: a run starts from idle, its timer elapses
/// while it is running, and its workers return while it is stopping.
pub open spec fn applies(phase: Phase, event: ControlEvent) -> bool {
    ||| phase == Phase::Idle && event == ControlEvent::Start
    ||| phase == Phase::Running && event == ControlEvent::DurationElapsed
    ||| phase == Phase::Stopping && event == ControlEvent::WorkersReturned
}

/// The phase that follows `phase` on `event`: the next one where the event
/// applies, and `phase` itself where it does not.
pub open spec fn next_phase(phase: Phase, event: ControlEvent) -> Phase {
    if !applies(phase, event) {
        phase
    } else {
        match phase {
            Phase::Idle => Phase::Running,
            Phase::Running => Phase::Stopping,
            _ => Phase::Stopped,
        }
    }
}

/// What the controller asks for when it takes `event` in `phase`, in a run
/// of `run_secs` seconds: nothing where the event does not apply.
pub open spec fn action_on(phase: Phase, event: ControlEvent, run_secs: u64) -> ControlAction {
    if !applies(phase, event) {
        ControlAction::Nothing
    } else {
        match phase {
            Phase::Idle => ControlAction::StartWorkers { run_secs },
            Phase::Running => ControlAction::CancelAndJoin,
            _ => ControlAction::Finish,
        }
    }
}

/// The controller of one run.
#[derive(Clone, Copy, Debug)]
pub struct LifecycleController {
    pub phase: Phase,
    pub run_duration_secs: u64,
}

impl LifecycleController {
    /// A controller that has started nothing, for a run of the configured
    /// duration.
    pub fn new(config: &RunConfig) -> (controller: LifecycleController)
        ensures
            controller.phase == Phase::Idle,
            controller.run_duration_secs == config@.run_duration_secs,
    {
        LifecycleController { phase: Phase::Idle, run_duration_secs: config.run_duration_secs() }
    }

    /// Takes one event: moves to the phase that follows and answers what is
    /// to be done.
    pub fn handle(&mut self, event: ControlEvent) -> (action: ControlAction)
        ensures
            final(self).phase == next_phase(old(self).phase, event),
            final(self).run_duration_secs == old(self).run_duration_secs,
            action == action_on(old(self).phase, event, old(self).run_duration_secs),
    {
        match (self.phase, event) {
            (Phase::Idle, ControlEvent::Start) => {
                self.phase = Phase::Running;
                ControlAction::StartWorkers { run_secs: self.run_duration_secs }
            },
            (Phase::Running, ControlEvent::DurationElapsed) => {
                self.phase = Phase::Stopping;
                ControlAction::CancelAndJoin
            },
            (Phase::Stopping, ControlEvent::WorkersReturned) => {
                self.phase = Phase::Stopped;
                ControlAction::Finish
            },
            _ => ControlAction::Nothing,
        }
    }

    /// Whether the cancellation signal is raised in this phase.
    pub fn cancel_raised(&self) -> (raised: bool)
        ensures
            raised == signal_raised(self.phase),
    {
        match self.phase {
            Phase::Stopping => true,
            Phase::Stopped => true,
            _ => false,
        }
    }

    /// Whether the run is over.
    pub fn is_stopped(&self) -> (stopped: bool)
        ensures
            stopped == (self.phase == Phase::Stopped),
    {
        match self.phase {
            Phase::Stopped => true,
            _ => false,
        }
    }
}

/// A run only moves forward: an event that applies takes the controller to
/// the next phase and asks for something, and any other event leaves the
/// phase and asks for nothing.
pub proof fn lemma_phase_only_advances(phase: Phase, event: ControlEvent, run_secs: u64)
    ensures
        applies(phase, event) ==> rank(next_phase(phase, event)) == rank(phase) + 1 && action_on(
            phase,
            event,
            run_secs,
        ) != ControlAction::Nothing,
        !applies(phase, event) ==> next_phase(phase, event) == phase && action_on(
            phase,
            event,
            run_secs,
        ) == ControlAction::Nothing,
{
}

/// Once raised, the cancellation signal stays raised.
pub proof fn lemma_signal_stays_raised(phase: Phase, event: ControlEvent)
    requires
        signal_raised(phase),
    ensures
        signal_raised(next_phase(phase, event)),
{
}

/// The workers and the run timer are started from the idle phase and from
/// no other, and no event leads back to it: a run starts them once, and
/// the timer is neither renewed nor restarted.
pub proof fn lemma_started_once(phase: Phase, event: ControlEvent, run_secs: u64)
    ensures
        action_on(phase, event, run_secs) is StartWorkers <==> phase == Phase::Idle && event
            == ControlEvent::Start,
        next_phase(phase, event) == Phase::Idle ==> phase == Phase::Idle && event
            != ControlEvent::Start,
{
}

/// The signal is raised by the one step that asks for it, the step on
/// which the run timer elapses, and is clear before it.
pub proof fn lemma_signal_raised_on_elapse(phase: Phase, event: ControlEvent, run_secs: u64)
    ensures
        action_on(phase, event, run_secs) == ControlAction::CancelAndJoin <==> !signal_raised(
            phase,
        ) && signal_raised(next_phase(phase, event)),
{
}

/// The stopped phase is final: every event leaves it and asks for nothing.
pub proof fn lemma_stopped_is_final(event: ControlEvent, run_secs: u64)
    ensures
        next_phase(Phase::Stopped, event) == Phase::Stopped,
        action_on(Phase::Stopped, event, run_secs) == ControlAction::Nothing,
{
}

} // verus!
