//! Readiness polling: bounded, evenly spaced attempts to reach the
//! coordinator before the node depends on it.
//!
//! The poller is a state machine. Its driver performs the action the poller
//! asks for (open a connection to the poll's endpoint, sleep) and hands back
//! what happened; the poller decides what comes next.

use crate::error::ReadinessTimeoutError;
use crate::identity::{endpoint, endpoint_text, NodeIdentity};
use vstd::prelude::*;

verus! {

/// Connection attempts allowed by a standard poll.
pub const STANDARD_MAX_ATTEMPTS: u32 = 30;

/// Seconds a standard poll waits after each failed attempt.
pub const STANDARD_DELAY_SECS: u64 = 2;

/// Where a poll stands.
#[derive(Clone, Copy, Debug, PartialEq, Eq, Structural)]
pub enum PollPhase {
    /// A connection attempt is due.
    Connecting,
    /// The last attempt failed; the delay that follows it is due.
    Sleeping,
    /// A connection was opened: the coordinator is reachable.
    Ready,
    /// Every allowed attempt failed.
    TimedOut,
}

/// What the driver has to do next.
#[derive(Clone, Copy, Debug, PartialEq, Eq, Structural)]
pub enum PollAction {
    /// Try to open a connection to the poll's endpoint, and drop it if it
    /// opens.
    Connect,
    /// Wait this many seconds.
    Sleep { secs: u64 },
    /// Stop: the coordinator is reachable.
    ReportReady,
    /// Stop: the poll timed out.
    ReportTimeout,
}

/// What happened to the action the poller asked for.
#[derive(Clone, Copy, Debug, PartialEq, Eq, Structural)]
pub enum PollEvent {
    /// The connection opened.
    Connected,
    /// The connection did not open.
    Refused,
    /// The delay has passed.
    Woke,
}

/// The mathematical state of a poll.
pub struct PollModel {
    /// The coordinator's endpoint as `host:port`.
    pub endpoint: Seq<char>,
    pub phase: PollPhase,
    /// Failed attempts so far.
    pub attempts: u32,
    pub max_attempts: u32,
    pub delay_secs: u64,
}

impl PollModel {
    /// The states a poll can be in: the count of failed attempts never
    /// passes the limit, an attempt is due only below the limit, and a
    /// timeout means the limit was reached.
    pub open spec fn wf(self) -> bool {
        match self.phase {
            PollPhase::Connecting => self.attempts < self.max_attempts,
            PollPhase::Sleeping => 1 <= self.attempts <= self.max_attempts,
            PollPhase::Ready => self.attempts < self.max_attempts,
            PollPhase::TimedOut => self.attempts == self.max_attempts,
        }
    }

    /// A fresh poll of `endpoint`. With no attempt allowed it has timed out
    /// already.
    pub open spec fn start(endpoint: Seq<char>, max_attempts: u32, delay_secs: u64) -> PollModel {
        PollModel {
            endpoint,
            phase: if max_attempts == 0 {
                PollPhase::TimedOut
            } else {
                PollPhase::Connecting
            },
            attempts: 0,
            max_attempts,
            delay_secs,
        }
    }

    /// The action that is due in this state.
    pub open spec fn action(self) -> PollAction {
        match self.phase {
            PollPhase::Connecting => PollAction::Connect,
            PollPhase::Sleeping => PollAction::Sleep { secs: self.delay_secs },
            PollPhase::Ready => PollAction::ReportReady,
            PollPhase::TimedOut => PollAction::ReportTimeout,
        }
    }

    /// Whether the poll has reached its verdict.
    pub open spec fn finished(self) -> bool {
        self.phase == PollPhase::Ready || self.phase == PollPhase::TimedOut
    }

    /// The verdict, once the poll has reached one: `Ok` when a connection
    /// opened, the timeout error with the count of attempts when every
    /// allowed attempt failed, and `None` while the poll is still running.
    pub open spec fn verdict(self) -> Option<Result<(), ReadinessTimeoutError>> {
        match self.phase {
            PollPhase::Ready => Some(Ok(())),
            PollPhase::TimedOut => Some(Err(ReadinessTimeoutError { attempts: self.attempts })),
            _ => None,
        }
    }

    /// The state after `event`. An opened connection ends the poll at once.
    /// A failed attempt is counted and followed by the delay; after the
    /// delay comes the next attempt, or the timeout once the limit is
    /// reached. An event that does not answer the action that was due
    /// changes nothing.
    pub open spec fn step(self, event: PollEvent) -> PollModel {
        match (self.phase, event) {
            (PollPhase::Connecting, PollEvent::Connected) => PollModel {
                phase: PollPhase::Ready,
                ..self
            },
            (PollPhase::Connecting, PollEvent::Refused) => PollModel {
                phase: PollPhase::Sleeping,
                attempts: (self.attempts + 1) as u32,
                ..self
            },
            (PollPhase::Sleeping, PollEvent::Woke) => PollModel {
                phase: if self.attempts < self.max_attempts {
                    PollPhase::Connecting
                } else {
                    PollPhase::TimedOut
                },
                ..self
            },
            _ => self,
        }
    }

    /// How a coordinator that never accepts a connection answers `action`:
    /// connection attempts fail, delays pass.
    pub open spec fn refusal(action: PollAction) -> PollEvent {
        match action {
            PollAction::Connect => PollEvent::Refused,
            _ => PollEvent::Woke,
        }
    }

    /// The state after `steps` actions, each answered by a coordinator that
    /// never accepts a connection.
    pub open spec fn after_refusals(self, steps: nat) -> PollModel
        decreases steps,
    {
        if steps == 0 {
            self
        } else {
            let before = self.after_refusals((steps - 1) as nat);
            before.step(Self::refusal(before.action()))
        }
    }

    /// How many of the first `steps` actions against a coordinator that
    /// never accepts are connection attempts.
    pub open spec fn connects_within(self, steps: nat) -> nat
        decreases steps,
    {
        if steps == 0 {
            0
        } else {
            let before = self.after_refusals((steps - 1) as nat);
            self.connects_within((steps - 1) as nat) + if before.action() == PollAction::Connect {
                1nat
            } else {
                0nat
            }
        }
    }
}

/// What a fresh poll of `endpoint` has become after `steps` actions against
/// a coordinator that never accepts a connection.
pub open spec fn refused_poll(
    endpoint: Seq<char>,
    max_attempts: u32,
    delay_secs: u64,
    steps: nat,
) -> PollModel {
    PollModel::start(endpoint, max_attempts, delay_secs).after_refusals(steps)
}

/// How many connection attempts a fresh poll of `endpoint` makes in its
/// first `steps` actions against a coordinator that never accepts a
/// connection.
pub open spec fn refused_connects(
    endpoint: Seq<char>,
    max_attempts: u32,
    delay_secs: u64,
    steps: nat,
) -> nat {
    PollModel::start(endpoint, max_attempts, delay_secs).connects_within(steps)
}

/// A readiness poll in progress.
#[derive(Debug, PartialEq, Eq)]
pub struct ReadinessPoll {
    endpoint: String,
    phase: PollPhase,
    attempts: u32,
    max_attempts: u32,
    delay_secs: u64,
}

impl View for ReadinessPoll {
    type V = PollModel;

    closed spec fn view(&self) -> PollModel {
        PollModel {
            endpoint: self.endpoint@,
            phase: self.phase,
            attempts: self.attempts,
            max_attempts: self.max_attempts,
            delay_secs: self.delay_secs,
        }
    }
}

impl Clone for ReadinessPoll {
    fn clone(&self) -> (copy: ReadinessPoll)
        ensures
            copy@ == self@,
    {
        proof {
            use_type_invariant(self);
        }
        ReadinessPoll {
            endpoint: self.endpoint.clone(),
            phase: self.phase,
            attempts: self.attempts,
            max_attempts: self.max_attempts,
            delay_secs: self.delay_secs,
        }
    }
}

impl ReadinessPoll {
    #[verifier::type_invariant]
    spec fn inv(self) -> bool {
        self@.wf()
    }

    /// Starts a poll of the coordinator at `address` and `port` that allows
    /// `max_attempts` connection attempts and waits `delay_secs` seconds
    /// after each failed one.
    pub fn new(address: &str, port: u16, max_attempts: u32, delay_secs: u64) -> (poll:
        ReadinessPoll)
        ensures
            poll@ == PollModel::start(endpoint_text(address@, port), max_attempts, delay_secs),
            poll@.wf(),
    {
        let phase = if max_attempts == 0 {
            PollPhase::TimedOut
        } else {
            PollPhase::Connecting
        };
        ReadinessPoll {
            endpoint: endpoint(address, port),
            phase,
            attempts: 0,
            max_attempts,
            delay_secs,
        }
    }

    /// Starts the standard poll of the coordinator of `identity`: 30
    /// attempts, 2 seconds apart.
    pub fn standard(identity: &NodeIdentity) -> (poll: ReadinessPoll)
        ensures
            poll@ == PollModel::start(
                endpoint_text(identity@.master_address, identity@.master_port),
                STANDARD_MAX_ATTEMPTS,
                STANDARD_DELAY_SECS,
            ),
            poll@.wf(),
    {
        ReadinessPoll::new(
            identity.master_address(),
            identity.master_port(),
            STANDARD_MAX_ATTEMPTS,
            STANDARD_DELAY_SECS,
        )
    }

    /// Where to connect to, as `host:port`.
    pub fn endpoint(&self) -> (endpoint: &str)
        ensures
            endpoint@ == self@.endpoint,
    {
        self.endpoint.as_str()
    }

    /// The action the driver has to perform now.
    pub fn action(&self) -> (action: PollAction)
        ensures
            action == self@.action(),
            self@.wf(),
    {
        proof {
            use_type_invariant(self);
        }
        match self.phase {
            PollPhase::Connecting => PollAction::Connect,
            PollPhase::Sleeping => PollAction::Sleep { secs: self.delay_secs },
            PollPhase::Ready => PollAction::ReportReady,
            PollPhase::TimedOut => PollAction::ReportTimeout,
        }
    }

    /// Takes in what happened to the last action.
    pub fn step(self, event: PollEvent) -> (next: ReadinessPoll)
        ensures
            next@ == self@.step(event),
            self@.wf(),
            next@.wf(),
    {
        proof {
            use_type_invariant(&self);
        }
        match (self.phase, event) {
            (PollPhase::Connecting, PollEvent::Connected) => ReadinessPoll {
                endpoint: self.endpoint,
                phase: PollPhase::Ready,
                attempts: self.attempts,
                max_attempts: self.max_attempts,
                delay_secs: self.delay_secs,
            },
            (PollPhase::Connecting, PollEvent::Refused) => ReadinessPoll {
                endpoint: self.endpoint,
                phase: PollPhase::Sleeping,
                attempts: self.attempts + 1,
                max_attempts: self.max_attempts,
                delay_secs: self.delay_secs,
            },
            (PollPhase::Sleeping, PollEvent::Woke) => {
                let phase = if self.attempts < self.max_attempts {
                    PollPhase::Connecting
                } else {
                    PollPhase::TimedOut
                };
                ReadinessPoll {
                    endpoint: self.endpoint,
                    phase,
                    attempts: self.attempts,
                    max_attempts: self.max_attempts,
                    delay_secs: self.delay_secs,
                }
            },
            _ => self,
        }
    }

    /// The number of failed connection attempts so far.
    pub fn attempts(&self) -> (attempts: u32)
        ensures
            attempts == self@.attempts,
    {
        self.attempts
    }

    /// The verdict, once the poll has reached one, and `None` while the
    /// poll is still running.
    pub fn outcome(&self) -> (outcome: Option<Result<(), ReadinessTimeoutError>>)
        ensures
            outcome == self@.verdict(),
    {
        match self.phase {
            PollPhase::Ready => Some(Ok(())),
            PollPhase::TimedOut => Some(Err(ReadinessTimeoutError { attempts: self.attempts })),
            _ => None,
        }
    }
}

/// Every step keeps a poll within its valid states: whatever the events, the
/// count of attempts never passes the limit, the limit and the delay stay
/// what they were, and a poll that has its verdict keeps it.
pub proof fn lemma_step_keeps_wf(poll: PollModel, event: PollEvent)
    requires
        poll.wf(),
    ensures
        poll.step(event).wf(),
        poll.step(event).endpoint == poll.endpoint,
        poll.step(event).max_attempts == poll.max_attempts,
        poll.step(event).delay_secs == poll.delay_secs,
        poll.finished() ==> poll.step(event) == poll,
{
}

/// The first connection that opens ends the poll with success, and only a
/// connection that opens does.
pub proof fn lemma_ready_means_connected(poll: PollModel, event: PollEvent)
    requires
        poll.wf(),
        !poll.finished(),
    ensures
        poll.step(event).phase == PollPhase::Ready <==> poll.phase == PollPhase::Connecting
            && event == PollEvent::Connected,
{
}

/// Against a coordinator that never accepts a connection, a fresh poll
/// alternates attempt and delay. After `k` rounds, with `k` below the
/// limit, `k` failures are counted and the next attempt is due; one action
/// later the failure of that attempt is counted too and the delay is due.
/// After as many rounds as attempts are allowed the poll has timed out.
/// Over the whole run exactly one connection attempt is made per round.
pub proof fn lemma_refused_rounds(
    endpoint: Seq<char>,
    max_attempts: u32,
    delay_secs: u64,
    k: nat,
)
    requires
        k <= max_attempts,
    ensures
        k < max_attempts ==> refused_poll(endpoint, max_attempts, delay_secs, 2 * k)
            == (PollModel {
            endpoint,
            phase: PollPhase::Connecting,
            attempts: k as u32,
            max_attempts,
            delay_secs,
        }),
        k < max_attempts ==> refused_poll(endpoint, max_attempts, delay_secs, 2 * k + 1)
            == (PollModel {
            endpoint,
            phase: PollPhase::Sleeping,
            attempts: (k + 1) as u32,
            max_attempts,
            delay_secs,
        }),
        k == max_attempts ==> refused_poll(endpoint, max_attempts, delay_secs, 2 * k)
            == (PollModel {
            endpoint,
            phase: PollPhase::TimedOut,
            attempts: max_attempts,
            max_attempts,
            delay_secs,
        }),
        refused_connects(endpoint, max_attempts, delay_secs, 2 * k) == k,
        k < max_attempts ==> refused_connects(endpoint, max_attempts, delay_secs, 2 * k + 1)
            == k + 1,
    decreases k,
{
    let start = PollModel::start(endpoint, max_attempts, delay_secs);
    if k == 0 {
        assert(start.after_refusals(0) == start);
        assert(start.connects_within(0) == 0);
        if max_attempts > 0 {
            assert(start.after_refusals(1) == start.after_refusals(0).step(
                PollModel::refusal(start.after_refusals(0).action()),
            ));
            assert(start.connects_within(1) == start.connects_within(0) + 1);
        }
    } else {
        lemma_refused_rounds(endpoint, max_attempts, delay_secs, (k - 1) as nat);
        let sleeping = start.after_refusals((2 * k - 1) as nat);
        assert(2 * (k - 1) + 1 == 2 * k - 1);
        assert(sleeping.phase == PollPhase::Sleeping && sleeping.attempts == k);
        assert(start.after_refusals(2 * k) == sleeping.step(
            PollModel::refusal(sleeping.action()),
        ));
        assert(start.connects_within(2 * k) == start.connects_within((2 * k - 1) as nat));
        if k < max_attempts {
            let connecting = start.after_refusals(2 * k);
            assert(start.after_refusals(2 * k + 1) == connecting.step(
                PollModel::refusal(connecting.action()),
            ));
            assert(start.connects_within(2 * k + 1) == start.connects_within(2 * k) + 1);
        }
    }
}

/// Once a poll has timed out against a coordinator that never accepts, it
/// asks for nothing more: the state stays as it is and no further
/// connection attempt is made.
pub proof fn lemma_refused_poll_stays_timed_out(
    endpoint: Seq<char>,
    max_attempts: u32,
    delay_secs: u64,
    extra: nat,
)
    ensures
        refused_poll(endpoint, max_attempts, delay_secs, 2 * (max_attempts as nat) + extra)
            == (PollModel {
            endpoint,
            phase: PollPhase::TimedOut,
            attempts: max_attempts,
            max_attempts,
            delay_secs,
        }),
        refused_connects(endpoint, max_attempts, delay_secs, 2 * (max_attempts as nat) + extra)
            == max_attempts,
    decreases extra,
{
    let start = PollModel::start(endpoint, max_attempts, delay_secs);
    let limit = 2 * (max_attempts as nat);
    lemma_refused_rounds(endpoint, max_attempts, delay_secs, max_attempts as nat);
    if extra > 0 {
        lemma_refused_poll_stays_timed_out(endpoint, max_attempts, delay_secs, (extra - 1) as nat);
        let before = start.after_refusals((limit + extra - 1) as nat);
        assert(start.after_refusals(limit + extra) == before.step(
            PollModel::refusal(before.action()),
        ));
        assert(start.connects_within(limit + extra) == start.connects_within(
            (limit + extra - 1) as nat,
        ));
    }
}

/// A standard poll against a coordinator that never accepts a connection
/// makes exactly 30 connection attempts, waits 2 seconds after each of
/// them, and then reports the timeout: of its first 60 actions the even
/// ones are attempts and the odd ones delays of 2 seconds, and from then on
/// the timeout is due and the count of attempts stays at 30.
pub proof fn lemma_standard_poll_times_out(endpoint: Seq<char>, steps: nat)
    ensures
        refused_connects(endpoint, STANDARD_MAX_ATTEMPTS, STANDARD_DELAY_SECS, steps) <= 30,
        steps >= 60 ==> refused_connects(
            endpoint,
            STANDARD_MAX_ATTEMPTS,
            STANDARD_DELAY_SECS,
            steps,
        ) == 30,
        steps >= 60 ==> refused_poll(
            endpoint,
            STANDARD_MAX_ATTEMPTS,
            STANDARD_DELAY_SECS,
            steps,
        ).verdict()
            == Some(Err::<(), ReadinessTimeoutError>((ReadinessTimeoutError { attempts: 30 }))),
        steps < 60 && steps % 2 == 0 ==> refused_poll(
            endpoint,
            STANDARD_MAX_ATTEMPTS,
            STANDARD_DELAY_SECS,
            steps,
        ).action() == PollAction::Connect,
        steps < 60 && steps % 2 == 1 ==> refused_poll(
            endpoint,
            STANDARD_MAX_ATTEMPTS,
            STANDARD_DELAY_SECS,
            steps,
        ).action() == (PollAction::Sleep { secs: 2 }),
{
    if steps >= 60 {
        lemma_refused_poll_stays_timed_out(
            endpoint,
            STANDARD_MAX_ATTEMPTS,
            STANDARD_DELAY_SECS,
            (steps - 60) as nat,
        );
    } else {
        lemma_refused_rounds(endpoint, STANDARD_MAX_ATTEMPTS, STANDARD_DELAY_SECS, steps / 2);
    }
}

} // verus!
