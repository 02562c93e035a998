//! The order in which a node comes up.
//!
//! Wait until the coordinator is reachable; if it never is, stop there.
//! Otherwise register, and go on to serve whether or not the registration
//! went through. The driver performs the action that is due and hands back
//! what happened.

use vstd::prelude::*;

verus! {

/// Where the startup stands.
#[derive(Clone, Copy, Debug, PartialEq, Eq, Structural)]
pub enum StartupPhase {
    /// Polling for the coordinator.
    AwaitingMaster,
    /// The coordinator is reachable; the registration is under way.
    Registering,
    /// The reporters and the status service run.
    Serving,
    /// The coordinator was never reachable; the node gave up.
    Aborted,
}

/// What the driver has to do next.
#[derive(Clone, Copy, Debug, PartialEq, Eq, Structural)]
pub enum StartupAction {
    /// Run the readiness poll.
    WaitForMaster,
    /// Send the registration.
    Register,
    /// Start the load simulator, the heartbeat and the status service.
    Serve,
    /// Log the failure and return.
    Abort,
}

/// What happened to the action that was due.
#[derive(Clone, Copy, Debug, PartialEq, Eq, Structural)]
pub enum StartupEvent {
    /// The readiness poll found the coordinator.
    MasterReady,
    /// The readiness poll timed out.
    MasterUnreachable,
    /// The registration was delivered and acknowledged.
    Registered,
    /// The registration could not be delivered.
    RegistrationFailed,
}

impl StartupPhase {
    /// The action that is due in this phase.
    pub open spec fn due(self) -> StartupAction {
        match self {
            StartupPhase::AwaitingMaster => StartupAction::WaitForMaster,
            StartupPhase::Registering => StartupAction::Register,
            StartupPhase::Serving => StartupAction::Serve,
            StartupPhase::Aborted => StartupAction::Abort,
        }
    }

    /// The phase after `event`. An event that does not answer the action
    /// that was due changes nothing.
    pub open spec fn after(self, event: StartupEvent) -> StartupPhase {
        match (self, event) {
            (StartupPhase::AwaitingMaster, StartupEvent::MasterReady) => StartupPhase::Registering,
            (StartupPhase::AwaitingMaster, StartupEvent::MasterUnreachable) => StartupPhase::Aborted,
            (StartupPhase::Registering, StartupEvent::Registered) => StartupPhase::Serving,
            (StartupPhase::Registering, StartupEvent::RegistrationFailed) => StartupPhase::Serving,
            _ => self,
        }
    }

    /// The phase after a run of events.
    pub open spec fn after_all(self, events: Seq<StartupEvent>) -> StartupPhase
        decreases events.len(),
    {
        if events.len() == 0 {
            self
        } else {
            self.after_all(events.drop_last()).after(events.last())
        }
    }

    /// The phase in which every node starts.
    pub fn begin() -> (phase: StartupPhase)
        ensures
            phase == StartupPhase::AwaitingMaster,
    {
        StartupPhase::AwaitingMaster
    }

    /// The action the driver has to perform now.
    pub fn action(&self) -> (action: StartupAction)
        ensures
            action == self.due(),
    {
        match self {
            StartupPhase::AwaitingMaster => StartupAction::WaitForMaster,
            StartupPhase::Registering => StartupAction::Register,
            StartupPhase::Serving => StartupAction::Serve,
            StartupPhase::Aborted => StartupAction::Abort,
        }
    }

    /// Takes in what happened to the last action.
    pub fn step(self, event: StartupEvent) -> (next: StartupPhase)
        ensures
            next == self.after(event),
    {
        match (self, event) {
            (StartupPhase::AwaitingMaster, StartupEvent::MasterReady) => StartupPhase::Registering,
            (StartupPhase::AwaitingMaster, StartupEvent::MasterUnreachable) => StartupPhase::Aborted,
            (StartupPhase::Registering, StartupEvent::Registered) => StartupPhase::Serving,
            (StartupPhase::Registering, StartupEvent::RegistrationFailed) => StartupPhase::Serving,
            _ => self,
        }
    }
}

/// A readiness timeout is fatal: whatever happens after it, the node never
/// registers and never serves.
pub proof fn lemma_timeout_is_fatal(later: Seq<StartupEvent>)
    ensures
        StartupPhase::AwaitingMaster.after(StartupEvent::MasterUnreachable).after_all(later)
            == StartupPhase::Aborted,
        StartupPhase::Aborted.after_all(later).due() == StartupAction::Abort,
    decreases later.len(),
{
    if later.len() > 0 {
        lemma_timeout_is_fatal(later.drop_last());
    }
}

/// A failed registration is not fatal: once the coordinator is reachable
/// the node goes on to serve, whether the registration was acknowledged or
/// not, and it serves from then on.
pub proof fn lemma_registration_is_best_effort(result: StartupEvent, later: Seq<StartupEvent>)
    requires
        result == StartupEvent::Registered || result == StartupEvent::RegistrationFailed,
    ensures
        StartupPhase::AwaitingMaster.after(StartupEvent::MasterReady).after(result).after_all(
            later,
        ) == StartupPhase::Serving,
        StartupPhase::Serving.after_all(later).due() == StartupAction::Serve,
    decreases later.len(),
{
    if later.len() > 0 {
        lemma_registration_is_best_effort(result, later.drop_last());
    }
}

/// No node serves before the coordinator was found reachable: a run of
/// events that ends in serving holds the event that says so.
pub proof fn lemma_serving_needs_ready_master(events: Seq<StartupEvent>)
    requires
        StartupPhase::AwaitingMaster.after_all(events) == StartupPhase::Serving
            || StartupPhase::AwaitingMaster.after_all(events) == StartupPhase::Registering,
    ensures
        events.contains(StartupEvent::MasterReady),
    decreases events.len(),
{
    if events.len() > 0 {
        let before = StartupPhase::AwaitingMaster.after_all(events.drop_last());
        if before == StartupPhase::Serving || before == StartupPhase::Registering {
            lemma_serving_needs_ready_master(events.drop_last());
            let i = choose|i: int|
                0 <= i < events.drop_last().len() && events.drop_last()[i]
                    == StartupEvent::MasterReady;
            assert(events[i] == StartupEvent::MasterReady);
        } else {
            assert(events.last() == StartupEvent::MasterReady);
            assert(events[events.len() - 1] == StartupEvent::MasterReady);
        }
    }
}

} // verus!
