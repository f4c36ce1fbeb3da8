//! One insertion into the history store, as a machine that the application
//! drives: each step takes what the last database action gave and says what
//! to do next. The machine writes the reading to the in-memory table (once
//! more after reconnecting, when the table was lost), runs the history step,
//! folds the tables when the interval has passed, calls the caller's callback
//! with the history row that was opened, and reports what changed.

use vstd::prelude::*;

use crate::store::{
    flush_time_ok, history_step, insert_outcome, is_flush_plan, memory_table_lost,
    memory_write_recovery, outcome_changed, outcome_notify, FlushPlan, HistoryPlan,
    InsertModifyed, MemoryWriteRecovery, StoreSchedule,
};

verus! {

/// Where an insertion stands.
#[derive(Clone, Copy, Debug, PartialEq, Eq, Structural)]
pub enum InsertStage {
    /// Nothing done yet.
    Begin,
    /// The reading is being written to the in-memory table; `retried` after a
    /// reconnection.
    AwaitMemoryWrite { retried: bool },
    /// A fresh in-memory database is being connected.
    AwaitReconnect,
    /// The history step is running.
    AwaitHistory,
    /// The tables are being folded; `recorded` is the row the history step wrote.
    AwaitFlush { recorded: Option<i64> },
    /// The callback is running.
    AwaitNotify,
    /// The insertion has ended.
    Done,
}

/// What the application reports back after doing an action.
#[derive(Debug)]
pub enum InsertEvent {
    /// Start the insertion.
    Go,
    /// The reading is in the in-memory table.
    MemoryWritten,
    /// Writing the reading failed with this error text.
    MemoryWriteFailed(String),
    /// The fresh in-memory database is connected and has its tables.
    Reconnected,
    /// The history step is done; the history row it opened, if any.
    HistoryDone(Option<i64>),
    /// The folding is done; the history row it opened, if any.
    FlushDone(Option<i64>),
    /// The callback has returned.
    Notified,
    /// A database action failed.
    StepFailed,
}

/// What the application does next.
#[derive(Debug)]
pub enum InsertAction {
    /// Write the reading to the in-memory table.
    WriteMemory,
    /// Connect a fresh in-memory database and create its tables.
    Reconnect,
    /// Run the history step.
    RunHistory(HistoryPlan),
    /// Prune and fold the tables, then bring the history up to date.
    RunFlush(FlushPlan),
    /// Call the callback with this history row.
    Notify(i64),
    /// Report success and what changed.
    Finish(Vec<InsertModifyed>),
    /// Report the last database error.
    GiveUp,
}

/// An insertion of the reading taken at `now`.
#[derive(Clone, Copy, Debug, PartialEq, Eq, Structural)]
pub struct InsertRun {
    pub stage: InsertStage,
    /// The reading's timestamp.
    pub now: i64,
    /// Whether the reading changed the charge state.
    pub state_changed: bool,
}

/// The stage after the history step: the folding when it is due, else the
/// end, through the callback when a history row was opened.
pub open spec fn stage_after_history(s: StoreSchedule, now: int, recorded: Option<i64>) -> InsertStage {
    if s.flush_due_at(now) {
        InsertStage::AwaitFlush { recorded }
    } else {
        stage_after_outcome(None, recorded)
    }
}

/// The stage once both history rows are known.
pub open spec fn stage_after_outcome(flushed: Option<i64>, recorded: Option<i64>) -> InsertStage {
    if outcome_notify(flushed, recorded) is Some {
        InsertStage::AwaitNotify
    } else {
        InsertStage::Done
    }
}

/// The action once both history rows are known: the callback when a row was
/// opened, else the report.
pub open spec fn action_after_outcome(a: InsertAction, flushed: Option<i64>, recorded: Option<i64>) -> bool {
    match outcome_notify(flushed, recorded) {
        Some(id) => a matches InsertAction::Notify(n) && n == id,
        None => a matches InsertAction::Finish(c) && c@ == outcome_changed(flushed, recorded),
    }
}

/// The stage an insertion moves to on an event; the schedule `s` is the one
/// before the step. Any event that the stage does not wait for ends it.
pub open spec fn next_stage(
    stage: InsertStage,
    event: InsertEvent,
    s: StoreSchedule,
    now: int,
) -> InsertStage {
    match (stage, event) {
        (InsertStage::Begin, InsertEvent::Go) => InsertStage::AwaitMemoryWrite { retried: false },
        (InsertStage::AwaitMemoryWrite { .. }, InsertEvent::MemoryWritten) => InsertStage::AwaitHistory,
        (InsertStage::AwaitMemoryWrite { retried }, InsertEvent::MemoryWriteFailed(text)) => {
            if !retried && memory_table_lost(text@) {
                InsertStage::AwaitReconnect
            } else {
                InsertStage::Done
            }
        },
        (InsertStage::AwaitReconnect, InsertEvent::Reconnected) => InsertStage::AwaitMemoryWrite {
            retried: true,
        },
        (InsertStage::AwaitHistory, InsertEvent::HistoryDone(recorded)) => stage_after_history(
            s,
            now,
            recorded,
        ),
        (InsertStage::AwaitFlush { recorded }, InsertEvent::FlushDone(flushed)) => stage_after_outcome(
            flushed,
            recorded,
        ),
        _ => InsertStage::Done,
    }
}

/// The schedule after a step: the history step may settle the owed first row,
/// the folding restarts the interval; nothing else touches it.
pub open spec fn next_schedule(
    stage: InsertStage,
    event: InsertEvent,
    s: StoreSchedule,
    now: int,
    state_changed: bool,
) -> StoreSchedule {
    match (stage, event) {
        (InsertStage::AwaitMemoryWrite { .. }, InsertEvent::MemoryWritten) => history_step(
            s,
            state_changed,
        ).1,
        (InsertStage::AwaitHistory, InsertEvent::HistoryDone(_)) => {
            if s.flush_due_at(now) {
                s.after_flush(now)
            } else {
                s
            }
        },
        _ => s,
    }
}

/// The step needs chrono's range: it is the one that may start a folding.
pub open spec fn step_needs_clock(stage: InsertStage, event: InsertEvent, s: StoreSchedule, now: int) -> bool {
    stage is AwaitHistory && event is HistoryDone && s.flush_due_at(now)
}

/// The action a step asks for.
pub open spec fn step_action(
    a: InsertAction,
    stage: InsertStage,
    event: InsertEvent,
    s: StoreSchedule,
    now: int,
    state_changed: bool,
) -> bool {
    match (stage, event) {
        (InsertStage::Begin, InsertEvent::Go) => a is WriteMemory,
        (InsertStage::AwaitMemoryWrite { .. }, InsertEvent::MemoryWritten) => a matches InsertAction::RunHistory(p)
            && p == history_step(s, state_changed).0,
        (InsertStage::AwaitMemoryWrite { retried }, InsertEvent::MemoryWriteFailed(text)) => {
            if !retried && memory_table_lost(text@) {
                a is Reconnect
            } else {
                a is GiveUp
            }
        },
        (InsertStage::AwaitReconnect, InsertEvent::Reconnected) => a is WriteMemory,
        (InsertStage::AwaitHistory, InsertEvent::HistoryDone(recorded)) => {
            if s.flush_due_at(now) {
                a matches InsertAction::RunFlush(p) && is_flush_plan(p, now, s.interval_secs as int)
            } else {
                action_after_outcome(a, None, recorded)
            }
        },
        (InsertStage::AwaitFlush { recorded }, InsertEvent::FlushDone(flushed)) => action_after_outcome(
            a,
            flushed,
            recorded,
        ),
        (InsertStage::AwaitNotify, InsertEvent::Notified) => a matches InsertAction::Finish(c) && c@
            == seq![InsertModifyed::BatteryHistory],
        _ => a is GiveUp,
    }
}

impl InsertRun {
    /// An insertion of a reading taken at `now` that did or did not change the
    /// charge state.
    pub fn new(now: i64, state_changed: bool) -> (r: InsertRun)
        ensures
            r == (InsertRun { stage: InsertStage::Begin, now, state_changed }),
    {
        InsertRun { stage: InsertStage::Begin, now, state_changed }
    }

    fn finish_with(&mut self, flushed: Option<i64>, recorded: Option<i64>) -> (a: InsertAction)
        ensures
            action_after_outcome(a, flushed, recorded),
            final(self).stage == stage_after_outcome(flushed, recorded),
            final(self).now == old(self).now,
            final(self).state_changed == old(self).state_changed,
    {
        let o = insert_outcome(flushed, recorded);
        match o.notify {
            Some(id) => {
                self.stage = InsertStage::AwaitNotify;
                InsertAction::Notify(id)
            },
            None => {
                self.stage = InsertStage::Done;
                InsertAction::Finish(o.changed)
            },
        }
    }

    /// Takes what the last action gave and says what to do next.
    pub fn step(&mut self, schedule: &mut StoreSchedule, event: InsertEvent) -> (a: InsertAction)
        requires
            step_needs_clock(old(self).stage, event, *old(schedule), old(self).now as int)
                ==> flush_time_ok(old(self).now as int),
        ensures
            step_action(
                a,
                old(self).stage,
                event,
                *old(schedule),
                old(self).now as int,
                old(self).state_changed,
            ),
            final(self).stage == next_stage(old(self).stage, event, *old(schedule), old(self).now as int),
            *final(schedule) == next_schedule(
                old(self).stage,
                event,
                *old(schedule),
                old(self).now as int,
                old(self).state_changed,
            ),
            final(self).now == old(self).now,
            final(self).state_changed == old(self).state_changed,
    {
        let stage = self.stage;
        match (stage, event) {
            (InsertStage::Begin, InsertEvent::Go) => {
                self.stage = InsertStage::AwaitMemoryWrite { retried: false };
                InsertAction::WriteMemory
            },
            (InsertStage::AwaitMemoryWrite { .. }, InsertEvent::MemoryWritten) => {
                let plan = schedule.plan_history(self.state_changed);
                self.stage = InsertStage::AwaitHistory;
                InsertAction::RunHistory(plan)
            },
            (InsertStage::AwaitMemoryWrite { retried }, InsertEvent::MemoryWriteFailed(text)) => {
                if !retried {
                    match memory_write_recovery(text.as_str()) {
                        MemoryWriteRecovery::Reconnect => {
                            self.stage = InsertStage::AwaitReconnect;
                            return InsertAction::Reconnect;
                        },
                        MemoryWriteRecovery::Fail => {},
                    }
                }
                self.stage = InsertStage::Done;
                InsertAction::GiveUp
            },
            (InsertStage::AwaitReconnect, InsertEvent::Reconnected) => {
                self.stage = InsertStage::AwaitMemoryWrite { retried: true };
                InsertAction::WriteMemory
            },
            (InsertStage::AwaitHistory, InsertEvent::HistoryDone(recorded)) => {
                match schedule.begin_flush(self.now) {
                    Some(plan) => {
                        self.stage = InsertStage::AwaitFlush { recorded };
                        InsertAction::RunFlush(plan)
                    },
                    None => self.finish_with(None, recorded),
                }
            },
            (InsertStage::AwaitFlush { recorded }, InsertEvent::FlushDone(flushed)) => {
                self.finish_with(flushed, recorded)
            },
            (InsertStage::AwaitNotify, InsertEvent::Notified) => {
                self.stage = InsertStage::Done;
                let mut changed: Vec<InsertModifyed> = Vec::new();
                changed.push(InsertModifyed::BatteryHistory);
                InsertAction::Finish(changed)
            },
            _ => {
                self.stage = InsertStage::Done;
                InsertAction::GiveUp
            },
        }
    }
}

/// An ended insertion stays ended, whatever it is told.
pub proof fn lemma_done_is_final(event: InsertEvent, s: StoreSchedule, now: int, state_changed: bool)
    ensures
        next_stage(InsertStage::Done, event, s, now) == InsertStage::Done,
        next_schedule(InsertStage::Done, event, s, now, state_changed) == s,
{
}

/// The in-memory table is reconnected at most once in an insertion: a write
/// that fails after the reconnection ends it.
pub proof fn lemma_reconnect_once(text: String, s: StoreSchedule, now: int)
    ensures
        next_stage(InsertStage::AwaitMemoryWrite { retried: true }, InsertEvent::MemoryWriteFailed(text), s, now)
            == InsertStage::Done,
{
}

/// A failed database action ends the insertion without touching the schedule.
pub proof fn lemma_failure_ends(stage: InsertStage, s: StoreSchedule, now: int, state_changed: bool)
    ensures
        next_stage(stage, InsertEvent::StepFailed, s, now) == InsertStage::Done,
        next_schedule(stage, InsertEvent::StepFailed, s, now, state_changed) == s,
{
}

/// The callback is asked for only after the history was written to, and the
/// folding is asked for only when its interval has passed, which restarts it.
pub proof fn lemma_notify_and_flush_conditions(recorded: Option<i64>, flushed: Option<i64>, s: StoreSchedule, now: int)
    ensures
        stage_after_outcome(flushed, recorded) == InsertStage::AwaitNotify ==> (flushed is Some
            || recorded is Some),
        stage_after_history(s, now, recorded) is AwaitFlush ==> s.flush_due_at(now),
        s.flush_due_at(now) && crate::clock::utc_representable(now) ==> !s.after_flush(now).flush_due_at(now),
{
}

} // verus!
