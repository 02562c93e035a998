//! The two periodic reporters: the load simulator and the heartbeat.
//!
//! Both follow the same schedule: wait for the tick, report once, wait for
//! the next tick. A report that was not delivered is logged by the driver
//! and otherwise forgotten: it is not sent again, the period does not
//! change, and nothing piles up.

use crate::error::SerializationError;
use crate::exchange::{opened, send_load_update, Exchange, ExchangeModel};
use crate::identity::NodeIdentity;
use crate::load::{apply_draw, load_after_tick, LoadState, CAPACITY};
use crate::message::MessageModel;
use crate::random::random_i32;
use vstd::prelude::*;

verus! {

/// Seconds between two ticks of the load simulator.
pub const LOAD_PERIOD_SECS: u64 = 5;

/// Seconds between two heartbeats.
pub const HEARTBEAT_PERIOD_SECS: u64 = 10;

/// What the driver of a reporter has to do next.
#[derive(Clone, Copy, Debug, PartialEq, Eq, Structural)]
pub enum ReporterAction {
    /// Wait for the next tick of a timer that ticks every `period_secs`
    /// seconds. The timer starts with the reporter's first wait, and every
    /// tick of it, the first included, comes one full period after the
    /// tick before it or, for the first, after that start: no tick comes at
    /// once.
    AwaitTick { period_secs: u64 },
    /// Build this tick's report and deliver it, once.
    Report,
}

/// What happened to the action a reporter asked for.
#[derive(Clone, Copy, Debug, PartialEq, Eq, Structural)]
pub enum ReporterEvent {
    /// The timer ticked.
    Tick,
    /// The report was delivered and acknowledged.
    Delivered,
    /// The report could not be built or delivered.
    Failed,
}

/// A periodic reporter: its period, and whether a report is due.
#[derive(Clone, Copy, Debug, PartialEq, Eq, Structural)]
pub struct Reporter {
    pub period_secs: u64,
    pub reporting: bool,
}

impl Reporter {
    /// The action that is due in this state.
    pub open spec fn due(self) -> ReporterAction {
        if self.reporting {
            ReporterAction::Report
        } else {
            ReporterAction::AwaitTick { period_secs: self.period_secs }
        }
    }

    /// The state after `event`: a tick makes one report due, and the end of
    /// the report, delivered or not, brings back the wait for the next
    /// tick. The period never changes. An event that does not answer the
    /// action that was due changes nothing.
    pub open spec fn after(self, event: ReporterEvent) -> Reporter {
        match (self.reporting, event) {
            (false, ReporterEvent::Tick) => Reporter { reporting: true, ..self },
            (true, ReporterEvent::Delivered) => Reporter { reporting: false, ..self },
            (true, ReporterEvent::Failed) => Reporter { reporting: false, ..self },
            _ => self,
        }
    }

    /// The state after a run of events.
    pub open spec fn after_all(self, events: Seq<ReporterEvent>) -> Reporter
        decreases events.len(),
    {
        if events.len() == 0 {
            self
        } else {
            self.after_all(events.drop_last()).after(events.last())
        }
    }

    /// How many reports fall due in a run of events.
    pub open spec fn reports_in(self, events: Seq<ReporterEvent>) -> nat
        decreases events.len(),
    {
        if events.len() == 0 {
            0
        } else {
            let before = self.after_all(events.drop_last());
            self.reports_in(events.drop_last()) + if !before.reporting && before.after(
                events.last(),
            ).reporting {
                1nat
            } else {
                0nat
            }
        }
    }

    /// How many ticks there are in a run of events.
    pub open spec fn ticks_in(events: Seq<ReporterEvent>) -> nat
        decreases events.len(),
    {
        if events.len() == 0 {
            0
        } else {
            Self::ticks_in(events.drop_last()) + if events.last() == ReporterEvent::Tick {
                1nat
            } else {
                0nat
            }
        }
    }

    /// A reporter with the given period, waiting for its first tick.
    pub fn every(period_secs: u64) -> (reporter: Reporter)
        ensures
            reporter == (Reporter { period_secs, reporting: false }),
    {
        Reporter { period_secs, reporting: false }
    }

    /// The schedule of the load simulator: a tick every 5 seconds.
    pub fn load_simulator() -> (reporter: Reporter)
        ensures
            reporter == (Reporter { period_secs: LOAD_PERIOD_SECS, reporting: false }),
    {
        Reporter::every(LOAD_PERIOD_SECS)
    }

    /// The schedule of the heartbeat: a tick every 10 seconds.
    pub fn heartbeat() -> (reporter: Reporter)
        ensures
            reporter == (Reporter { period_secs: HEARTBEAT_PERIOD_SECS, reporting: false }),
    {
        Reporter::every(HEARTBEAT_PERIOD_SECS)
    }

    /// The action the driver has to perform now.
    pub fn action(&self) -> (action: ReporterAction)
        ensures
            action == self.due(),
    {
        if self.reporting {
            ReporterAction::Report
        } else {
            ReporterAction::AwaitTick { period_secs: self.period_secs }
        }
    }

    /// Takes in what happened to the last action.
    pub fn step(self, event: ReporterEvent) -> (next: Reporter)
        ensures
            next == self.after(event),
    {
        match (self.reporting, event) {
            (false, ReporterEvent::Tick) => Reporter {
                period_secs: self.period_secs,
                reporting: true,
            },
            (true, ReporterEvent::Delivered) => Reporter {
                period_secs: self.period_secs,
                reporting: false,
            },
            (true, ReporterEvent::Failed) => Reporter {
                period_secs: self.period_secs,
                reporting: false,
            },
            _ => self,
        }
    }
}

/// One tick of the load simulator with the given raw draw: the load that
/// the draw stands for replaces the current one, and the delivery of the
/// report of that load is started. Always succeeds.
pub fn simulate_load_with(identity: &NodeIdentity, state: &mut LoadState, draw: i32) -> (r: Result<
    Exchange,
    SerializationError,
>)
    ensures
        final(state)@ == load_after_tick(old(state)@, draw),
        opened(r) == Some(
            ExchangeModel::delivery(
                identity@,
                (MessageModel::LoadUpdate { id: identity@.id, load: final(state)@ }),
            ),
        ),
{
    apply_draw(state, draw);
    send_load_update(identity, state)
}

/// One tick of the load simulator: a new load is drawn at random, replaces
/// the current one, and the delivery of its report is started.
pub fn simulate_load(identity: &NodeIdentity, state: &mut LoadState) -> (r: Result<
    Exchange,
    SerializationError,
>)
    ensures
        0 <= final(state)@ < CAPACITY,
        opened(r) == Some(
            ExchangeModel::delivery(
                identity@,
                (MessageModel::LoadUpdate { id: identity@.id, load: final(state)@ }),
            ),
        ),
{
    simulate_load_with(identity, state, random_i32())
}

/// Whether a report was delivered or not makes no difference to what a
/// reporter does next: it waits for the next tick, with the period it
/// always had. Nothing is sent again and nothing is slowed down.
pub proof fn lemma_failure_changes_nothing(reporter: Reporter)
    ensures
        reporter.after(ReporterEvent::Failed) == reporter.after(ReporterEvent::Delivered),
        reporter.after(ReporterEvent::Failed).due() == (ReporterAction::AwaitTick {
            period_secs: reporter.period_secs,
        }),
{
}

/// A reporter sends at most one report per tick: in any run of events, no
/// more reports fall due than ticks have come, and the period stays what
/// it was.
pub proof fn lemma_at_most_one_report_per_tick(reporter: Reporter, events: Seq<ReporterEvent>)
    ensures
        reporter.reports_in(events) <= Reporter::ticks_in(events),
        reporter.after_all(events).period_secs == reporter.period_secs,
    decreases events.len(),
{
    if events.len() > 0 {
        lemma_at_most_one_report_per_tick(reporter, events.drop_last());
    }
}

} // verus!
