//! The run controller: a run is launched, then three branches race — the
//! chain finishing, an optional wall-clock timeout, and an operator
//! shutdown signal. Whichever event arrives first decides the one
//! terminal outcome; events delivered after that are discarded.

use vstd::prelude::*;
use crate::errors::MigrationError;

verus! {

/// The single terminal outcome of one run. A chain that finished —
/// successfully or with a reported error — is a normal, non-crash exit;
/// a timeout or an operator signal abandons the in-flight work.
#[derive(Clone, Copy, Debug, PartialEq, Eq)]
pub enum RunOutcome {
    Completed,
    CompletedWithError(MigrationError),
    TimedOut,
    Cancelled,
}

/// An event one of the three racing branches delivers.
#[derive(Clone, Copy, Debug, PartialEq, Eq)]
pub enum RunEvent {
    ChainFinished(Result<(), MigrationError>),
    TimeoutFired,
    SignalReceived,
}

/// The controller's state: a run is idle until launched, running until
/// the first event, and then terminally done.
#[derive(Clone, Copy, Debug, PartialEq, Eq)]
pub enum RunState {
    Idle,
    Running,
    Done(RunOutcome),
}

/// The outcome an event decides when it wins the race.
pub open spec fn outcome_of(e: RunEvent) -> RunOutcome {
    match e {
        RunEvent::ChainFinished(r) => match r {
            Ok(_) => RunOutcome::Completed,
            Err(er) => RunOutcome::CompletedWithError(er),
        },
        RunEvent::TimeoutFired => RunOutcome::TimedOut,
        RunEvent::SignalReceived => RunOutcome::Cancelled,
    }
}

/// The state machine: the first event observed while running decides the
/// terminal outcome; anything arriving in any other state is discarded.
pub open spec fn next_state(s: RunState, e: RunEvent) -> RunState {
    match s {
        RunState::Running => RunState::Done(outcome_of(e)),
        _ => s,
    }
}

/// The run controller.
pub struct RunController {
    pub state: RunState,
}

impl RunController {
    /// A controller for a run that has not started yet.
    pub fn new() -> (c: Self)
        ensures
            c.state == RunState::Idle,
    {
        RunController { state: RunState::Idle }
    }

    /// Launch the run: the chain is started as a suspendable unit of
    /// work, and the controller begins listening for events.
    pub fn start(&mut self)
        requires
            old(self).state == RunState::Idle,
        ensures
            final(self).state == RunState::Running,
    {
        self.state = RunState::Running;
    }

    /// Observe one event. The first event observed while running decides
    /// the terminal outcome and is returned; later events are discarded
    /// and decide nothing.
    pub fn on_event(&mut self, e: RunEvent) -> (decided: Option<RunOutcome>)
        ensures
            final(self).state == next_state(old(self).state, e),
            decided == (if old(self).state == RunState::Running {
                Some(outcome_of(e))
            } else {
                None::<RunOutcome>
            }),
    {
        match self.state {
            RunState::Running => {
                let o = match e {
                    RunEvent::ChainFinished(r) => match r {
                        Ok(_) => RunOutcome::Completed,
                        Err(er) => RunOutcome::CompletedWithError(er),
                    },
                    RunEvent::TimeoutFired => RunOutcome::TimedOut,
                    RunEvent::SignalReceived => RunOutcome::Cancelled,
                };
                self.state = RunState::Done(o);
                Some(o)
            },
            _ => None,
        }
    }

    /// The terminal outcome, once one exists.
    pub fn outcome(&self) -> (r: Option<RunOutcome>)
        ensures
            match self.state {
                RunState::Done(o) => r == Some(o),
                _ => r is None,
            },
    {
        match self.state {
            RunState::Done(o) => Some(o),
            _ => None,
        }
    }
}

// ---------------------------------------------------------------------
// Laws of the run controller.
// ---------------------------------------------------------------------

/// Exactly one terminal transition: whichever event wins the race while
/// the run is live ends it, and each kind of event ends it in its own
/// terminal state — a finished chain in `Completed` (with the reported
/// error, if any), a timeout in `TimedOut`, a signal in `Cancelled`.
pub proof fn lemma_first_event_decides(e: RunEvent)
    ensures
        next_state(RunState::Running, e) is Done,
        next_state(RunState::Running, RunEvent::SignalReceived) == RunState::Done(
            RunOutcome::Cancelled,
        ),
        next_state(RunState::Running, RunEvent::TimeoutFired) == RunState::Done(
            RunOutcome::TimedOut,
        ),
        next_state(RunState::Running, RunEvent::ChainFinished(Ok(()))) == RunState::Done(
            RunOutcome::Completed,
        ),
{
}

/// A terminal state absorbs every later event: once the run is decided —
/// cancelled, timed out, or completed — nothing observed afterwards
/// changes the outcome.
pub proof fn lemma_terminal_absorbs(s: RunState, e: RunEvent)
    requires
        s is Done,
    ensures
        next_state(s, e) == s,
{
}

} // verus!
