//! The decisions of the battery history store. The store keeps the raw
//! readings in an in-memory table, folds them every few seconds into a
//! two-second table and a one-minute table, prunes old rows, and keeps one
//! history row per period of unchanged charge state. The database work is
//! done by the application; this module says which work is due and what is
//! written.

use vstd::prelude::*;

use crate::charge::ChargeState;
use crate::clock::{
    minute_floor, minute_start, utc_now_timestamp, utc_representable, SECS_PER_DAY,
    SECS_PER_MINUTE, SECS_PER_WEEK, UTC_MIN_TIMESTAMP,
};
use crate::decimal::{append_decimal, decimal_text};
use crate::down_sample::{params_describe, DownSampleParams};
use crate::text::{contains_text, has_infix, owned_text, same_text};

verus! {

/// What an insertion changed besides the in-memory table.
#[derive(Debug, PartialEq, Eq, Clone, Copy, Structural)]
pub enum InsertModifyed {
    Unknown,
    BatteryHistory,
}

/// What to do when writing a reading to the in-memory table fails.
#[derive(Debug, PartialEq, Eq, Clone, Copy, Structural)]
pub enum MemoryWriteRecovery {
    /// The in-memory table is gone: connect a fresh in-memory database,
    /// create its tables, and write the reading once more.
    Reconnect,
    /// Give the error back.
    Fail,
}

/// The error text that says the in-memory table has been lost.
pub open spec fn memory_table_lost(err_text: Seq<char>) -> bool {
    has_infix(err_text, "no such table: memory_battery_status"@)
}

/// How the store answers a failed write to the in-memory table, given the
/// error's text.
pub fn memory_write_recovery(err_text: &str) -> (r: MemoryWriteRecovery)
    ensures
        r == (if memory_table_lost(err_text@) {
            MemoryWriteRecovery::Reconnect
        } else {
            MemoryWriteRecovery::Fail
        }),
{
    if contains_text(err_text, "no such table: memory_battery_status") {
        MemoryWriteRecovery::Reconnect
    } else {
        MemoryWriteRecovery::Fail
    }
}

/// The bookkeeping of the store between two insertions.
#[derive(Debug, PartialEq, Eq, Clone, Copy, Structural)]
pub struct StoreSchedule {
    /// When the tables were last folded and pruned.
    pub last_save_at: i64,
    /// Seconds between two foldings.
    pub interval_secs: u32,
    /// Whether the history table still has to get its first row.
    pub history_need_init: bool,
}

impl Default for StoreSchedule {
    /// Never folded, folded every ten seconds, no first history row owed.
    fn default() -> (s: Self)
        ensures
            s == (StoreSchedule { last_save_at: 0, interval_secs: 10, history_need_init: false }),
    {
        StoreSchedule { last_save_at: 0, interval_secs: 10, history_need_init: false }
    }
}

/// What the store does with the history table for one reading.
#[derive(Debug, PartialEq, Eq, Clone, Copy, Structural)]
pub enum HistoryPlan {
    /// Nothing.
    Skip,
    /// Write a first row for the reading if the table is empty.
    InitIfEmpty,
    /// The charge state changed: close the open period and open a new one.
    RecordTransition,
}

/// The history step: a change of state is recorded; otherwise the first row
/// is written once, on the first reading of a new database.
pub open spec fn history_step(s: StoreSchedule, state_changed: bool) -> (HistoryPlan, StoreSchedule) {
    if state_changed {
        (HistoryPlan::RecordTransition, s)
    } else if s.history_need_init {
        (HistoryPlan::InitIfEmpty, StoreSchedule { history_need_init: false, ..s })
    } else {
        (HistoryPlan::Skip, s)
    }
}

/// The work of one folding: the rows to prune and the two down-samplings.
#[derive(Debug)]
pub struct FlushPlan {
    /// In-memory rows older than this are deleted.
    pub memory_cutoff: i64,
    /// Two-second rows older than this are deleted.
    pub realtime_cutoff: i64,
    /// One-minute rows older than this are deleted.
    pub one_minute_cutoff: i64,
    /// The in-memory readings since the last folding, in two-second buckets.
    pub realtime_params: DownSampleParams,
    /// The two-second rows since the start of the previous minute, by minute.
    pub one_minute_params: DownSampleParams,
}

/// A folding at `now` can be done: chrono holds `now`, and the start of the
/// minute before it.
pub open spec fn flush_time_ok(now: int) -> bool {
    utc_representable(now) && minute_floor(now) - 60 >= UTC_MIN_TIMESTAMP
}

/// `p` is the folding at `now` of a store that folds every `interval_secs`
/// seconds: rows older than a minute, a day and a week are pruned from the
/// in-memory, two-second and one-minute tables, the in-memory readings since
/// `now - interval_secs` are put into two-second buckets, and the two-second
/// rows since the start of the previous minute are put into one-minute buckets.
pub open spec fn is_flush_plan(p: FlushPlan, now: int, interval_secs: int) -> bool {
    &&& p.memory_cutoff == now - SECS_PER_MINUTE
    &&& p.realtime_cutoff == now - SECS_PER_DAY
    &&& p.one_minute_cutoff == now - SECS_PER_WEEK
    &&& params_describe(
        p.realtime_params,
        "%Y-%m-%dT%H:%M:%SZ"@,
        "memory_battery_status"@,
        "timestamp"@,
        "id"@,
        now,
        now - interval_secs,
        2,
    )
    &&& params_describe(
        p.one_minute_params,
        "%Y-%m-%dT%H:%M:00Z"@,
        "battery_realtime"@,
        "timestamp"@,
        "timestamp"@,
        now,
        minute_floor(now) - 60,
        1,
    )
}

impl StoreSchedule {
    /// A folding is due at `now` when more than `interval_secs` seconds have
    /// passed since the last one.
    pub open spec fn flush_due_at(self, now: int) -> bool {
        self.last_save_at + self.interval_secs < now
    }

    /// The schedule after a folding at `now`.
    pub open spec fn after_flush(self, now: int) -> StoreSchedule {
        StoreSchedule { last_save_at: now as i64, ..self }
    }

    /// The schedule of a store opened now: the clock starts the first
    /// interval, and a first history row is owed when the database is new.
    pub fn open(interval_secs: u32, db_is_new: bool) -> (s: StoreSchedule)
        ensures
            s.interval_secs == interval_secs,
            s.history_need_init == db_is_new,
            utc_representable(s.last_save_at as int),
    {
        StoreSchedule {
            last_save_at: utc_now_timestamp(),
            interval_secs,
            history_need_init: db_is_new,
        }
    }

    /// Whether a folding is due at `now`.
    pub fn flush_due(&self, now: i64) -> (r: bool)
        ensures
            r == self.flush_due_at(now as int),
    {
        (self.last_save_at as i128) + (self.interval_secs as i128) < (now as i128)
    }

    /// What is done to the history table for a reading that did or did not
    /// change the charge state.
    pub fn plan_history(&mut self, state_changed: bool) -> (plan: HistoryPlan)
        ensures
            (plan, *final(self)) == history_step(*old(self), state_changed),
    {
        if state_changed {
            HistoryPlan::RecordTransition
        } else if self.history_need_init {
            self.history_need_init = false;
            HistoryPlan::InitIfEmpty
        } else {
            HistoryPlan::Skip
        }
    }

    /// The folding due at `now`, if any; taking it restarts the interval.
    pub fn begin_flush(&mut self, now: i64) -> (plan: Option<FlushPlan>)
        requires
            old(self).flush_due_at(now as int) ==> flush_time_ok(now as int),
        ensures
            old(self).flush_due_at(now as int) ==> (plan matches Some(p) && is_flush_plan(
                p,
                now as int,
                old(self).interval_secs as int,
            )) && *final(self) == old(self).after_flush(now as int),
            !old(self).flush_due_at(now as int) ==> plan is None && *final(self) == *old(self),
    {
        if !self.flush_due(now) {
            return None;
        }
        self.last_save_at = now;
        let previous_minute = minute_start(now) - SECS_PER_MINUTE;
        Some(FlushPlan {
            memory_cutoff: now - SECS_PER_MINUTE,
            realtime_cutoff: now - SECS_PER_DAY,
            one_minute_cutoff: now - SECS_PER_WEEK,
            realtime_params: DownSampleParams {
                time_formater: owned_text("%Y-%m-%dT%H:%M:%SZ"),
                table_name: owned_text("memory_battery_status"),
                time_field: owned_text("timestamp"),
                order_field: owned_text("id"),
                end_time: now,
                start_time: now - (self.interval_secs as i64),
                interval_secs: 2,
            },
            one_minute_params: DownSampleParams {
                time_formater: owned_text("%Y-%m-%dT%H:%M:00Z"),
                table_name: owned_text("battery_realtime"),
                time_field: owned_text("timestamp"),
                order_field: owned_text("timestamp"),
                end_time: now,
                start_time: previous_minute,
                interval_secs: 1,
            },
        })
    }
}

/// The first history row is owed at most once: after a reading without a
/// change of state, a second such reading does nothing.
pub proof fn lemma_history_init_once(s: StoreSchedule)
    ensures
        history_step(history_step(s, false).1, false).0 == HistoryPlan::Skip,
        !history_step(s, false).1.history_need_init,
{
}

/// The history step changes nothing of the schedule but the owed first row.
pub proof fn lemma_history_step_keeps_clock(s: StoreSchedule, state_changed: bool)
    ensures
        history_step(s, state_changed).1.last_save_at == s.last_save_at,
        history_step(s, state_changed).1.interval_secs == s.interval_secs,
{
}

/// A folding at `now` is not due again at `now`, and it leaves the interval
/// and the owed first row as they were.
pub proof fn lemma_flush_restarts_interval(s: StoreSchedule, now: int)
    requires
        s.flush_due_at(now),
        utc_representable(now),
    ensures
        !s.after_flush(now).flush_due_at(now),
        s.after_flush(now).interval_secs == s.interval_secs,
        s.after_flush(now).history_need_init == s.history_need_init,
{
}

/// The pruning keeps the coarser tables longer: a week of one-minute rows, a
/// day of two-second rows, a minute of raw readings; and the folded windows
/// end at the moment of the folding.
pub proof fn lemma_flush_windows_nest(p: FlushPlan, now: int, interval_secs: int)
    requires
        is_flush_plan(p, now, interval_secs),
        interval_secs >= 0,
    ensures
        p.one_minute_cutoff < p.realtime_cutoff < p.memory_cutoff < now,
        p.realtime_params.start_time <= p.realtime_params.end_time == now,
        p.one_minute_params.start_time < p.one_minute_params.end_time == now,
        now - 120 < p.one_minute_params.start_time <= now - 60,
{
}

/// The latest row of the history table, as far as the store decides on it.
#[derive(Debug)]
pub struct HistoryHead {
    /// When the period began (the row's key).
    pub timestamp: i64,
    /// The charge state of the period.
    pub state: String,
    /// When the period ended, if it did.
    pub end_at: Option<i64>,
}

/// A reading opens a new period after `head` when that period is still open,
/// its state is not the reading's, and the reading's state is known.
pub open spec fn opens_new_period(head: HistoryHead, state: ChargeState) -> bool {
    &&& head.end_at is None
    &&& head.state@ != state.label_text()
    &&& state != ChargeState::Unknown
}

/// A latest period that is still open gives way to a new one exactly when the
/// reading's state is known and its name differs from the period's state, for
/// every known state; a closed period, or an unknown reading, never opens one.
pub proof fn lemma_open_period_gives_way_on_new_state(head: HistoryHead, state: ChargeState)
    ensures
        head.end_at is None && state != ChargeState::Unknown ==> (opens_new_period(head, state)
            <==> head.state@ != state.label_text()),
        head.end_at is Some ==> !opens_new_period(head, state),
        state == ChargeState::Unknown ==> !opens_new_period(head, state),
{
}

/// What a folding does to the history table.
#[derive(Debug)]
pub struct LastHistoryPlan {
    /// A new period is opened at the folding's time.
    pub open_new: bool,
    /// The state of the period before the new one.
    pub prev_state: Option<String>,
    /// The latest period's averages are brought up to date.
    pub refresh_last: bool,
    /// The latest period is closed at the folding's time.
    pub close_last: bool,
}

/// What a folding does to the history table, given its latest row and the
/// reading's state: an empty table gets its first period; otherwise a new
/// period opens when the state changed, and the latest period is brought up to
/// date and, when a new one opens, closed.
pub fn plan_last_history(last: &Option<HistoryHead>, state: ChargeState) -> (p: LastHistoryPlan)
    ensures
        last is None ==> p.open_new && p.prev_state is None && !p.refresh_last && !p.close_last,
        last matches Some(h) ==> {
            &&& p.open_new == opens_new_period(*h, state)
            &&& p.refresh_last
            &&& p.close_last == p.open_new
            &&& p.open_new ==> (p.prev_state matches Some(ps) && ps@ == h.state@)
            &&& !p.open_new ==> p.prev_state is None
        },
        last matches Some(h) ==> (p.open_new <==> (h.end_at is None && h.state@
            != state.label_text() && state != ChargeState::Unknown)),
{
    match last {
        None => LastHistoryPlan {
            open_new: true,
            prev_state: None,
            refresh_last: false,
            close_last: false,
        },
        Some(h) => {
            let open_new = h.end_at.is_none() && !same_text(h.state.as_str(), state.label())
                && !state.is_unknown();
            let prev_state = if open_new {
                Some(h.state.clone())
            } else {
                None
            };
            LastHistoryPlan { open_new, prev_state, refresh_last: true, close_last: open_new }
        },
    }
}

/// What a change of state does to the history table.
#[derive(Debug)]
pub struct TransitionPlan {
    /// The state of the period before the new one.
    pub prev_state: Option<String>,
    /// The previous period, brought up to date, is closed at this time.
    pub close_prev_at: Option<i64>,
}

/// What a change of state at `now` does, given the latest period that began
/// before `now`: the new period names that period's state, and that period is
/// brought up to date and closed at `now`.
pub fn plan_transition(now: i64, prev: &Option<HistoryHead>) -> (p: TransitionPlan)
    ensures
        prev is None ==> p.prev_state is None && p.close_prev_at is None,
        prev matches Some(h) ==> (p.prev_state matches Some(ps) && ps@ == h.state@)
            && p.close_prev_at == Some(now),
{
    match prev {
        None => TransitionPlan { prev_state: None, close_prev_at: None },
        Some(h) => TransitionPlan { prev_state: Some(h.state.clone()), close_prev_at: Some(now) },
    }
}

/// How a row is written to a table keyed by timestamp.
#[derive(Debug, PartialEq, Eq, Clone, Copy, Structural)]
pub enum RowWrite {
    Insert,
    Update,
}

/// A row whose key is already taken is updated; otherwise it is inserted.
pub fn row_write(key_taken: bool) -> (w: RowWrite)
    ensures
        w == (if key_taken {
            RowWrite::Update
        } else {
            RowWrite::Insert
        }),
{
    if key_taken {
        RowWrite::Update
    } else {
        RowWrite::Insert
    }
}

/// The history row that a write reports as opened: the key of an inserted row;
/// an updated row opens nothing.
pub fn opened_history_row(w: RowWrite, key: i64) -> (r: Option<i64>)
    ensures
        r == (match w {
            RowWrite::Insert => Some(key),
            RowWrite::Update => None,
        }),
{
    match w {
        RowWrite::Insert => Some(key),
        RowWrite::Update => None,
    }
}

/// The start of the window over which a period's averages are taken at `now`:
/// its beginning, but no more than a week back.
pub open spec fn average_window_start(now: int, began: int) -> int {
    if began < now - SECS_PER_WEEK {
        now - SECS_PER_WEEK
    } else {
        began
    }
}

/// The window start over which the averages of a period are refreshed at
/// `now`; `None` for a period that has ended, whose averages stay as they are.
pub fn plan_history_average(now: i64, began: i64, end_at: Option<i64>) -> (start: Option<i64>)
    requires
        now >= i64::MIN + SECS_PER_WEEK,
    ensures
        end_at is Some ==> start is None,
        end_at is None ==> start == Some(average_window_start(now as int, began as int) as i64),
{
    match end_at {
        Some(_) => None,
        None => {
            let min_start_at = now - SECS_PER_WEEK;
            if began < min_start_at {
                Some(min_start_at)
            } else {
                Some(began)
            }
        },
    }
}

/// The query for the averages of the one-minute rows between `start` and `now`.
pub open spec fn history_average_sql(start: int, now: int) -> Seq<char> {
    "\nSELECT \n    AVG(energy_rate) as energy_rate,\n    AVG(voltage) as voltage,\n    AVG(cpu_load) as cpu_load\nFROM battery_one_minutes\nWHERE timestamp BETWEEN "@
        + decimal_text(start) + " AND "@ + decimal_text(now) + "\n"@
}

/// The query for the averages of the one-minute rows between `start` and `now`.
pub fn build_history_average_sql(start: i64, now: i64) -> (sql: String)
    ensures
        sql@ == history_average_sql(start as int, now as int),
{
    let mut s = String::new();
    s.append(
        "\nSELECT \n    AVG(energy_rate) as energy_rate,\n    AVG(voltage) as voltage,\n    AVG(cpu_load) as cpu_load\nFROM battery_one_minutes\nWHERE timestamp BETWEEN ",
    );
    append_decimal(&mut s, start);
    s.append(" AND ");
    append_decimal(&mut s, now);
    s.append("\n");
    s
}

/// What an insertion reports: what changed, and the history row that the
/// caller's callback is given.
#[derive(Debug)]
pub struct InsertOutcome {
    pub changed: Vec<InsertModifyed>,
    pub notify: Option<i64>,
}

/// What an insertion reports as changed: the history, when the folding or the
/// history step wrote a row of it.
pub open spec fn outcome_changed(flushed: Option<i64>, recorded: Option<i64>) -> Seq<InsertModifyed> {
    if flushed is Some || recorded is Some {
        seq![InsertModifyed::BatteryHistory]
    } else {
        Seq::<InsertModifyed>::empty()
    }
}

/// The history row that the caller's callback is given: the folding's row
/// before the history step's.
pub open spec fn outcome_notify(flushed: Option<i64>, recorded: Option<i64>) -> Option<i64> {
    if flushed is Some {
        flushed
    } else {
        recorded
    }
}

/// What an insertion reports, given the history row the folding opened and
/// the one the history step wrote.
pub fn insert_outcome(flushed: Option<i64>, recorded: Option<i64>) -> (o: InsertOutcome)
    ensures
        o.changed@ == outcome_changed(flushed, recorded),
        o.notify == outcome_notify(flushed, recorded),
        o.changed@.contains(InsertModifyed::BatteryHistory) <==> (flushed is Some || recorded is Some),
        flushed is Some ==> o.notify == flushed,
        flushed is None ==> o.notify == recorded,
{
    let mut changed: Vec<InsertModifyed> = Vec::new();
    if flushed.is_some() || recorded.is_some() {
        changed.push(InsertModifyed::BatteryHistory);
    }
    let notify = match flushed {
        Some(id) => Some(id),
        None => recorded,
    };
    proof {
        lemma_outcome_reports_written_rows(flushed, recorded);
    }
    InsertOutcome { changed, notify }
}

/// The callback is called exactly when the insertion reports a change of the
/// history, and nothing else is ever reported.
pub proof fn lemma_outcome_notifies_on_change(flushed: Option<i64>, recorded: Option<i64>)
    ensures
        outcome_notify(flushed, recorded) is Some <==> outcome_changed(flushed, recorded).contains(
            InsertModifyed::BatteryHistory,
        ),
        !outcome_changed(flushed, recorded).contains(InsertModifyed::Unknown),
{
    if outcome_notify(flushed, recorded) is Some {
        assert(outcome_changed(flushed, recorded)[0] == InsertModifyed::BatteryHistory);
    }
}

/// A history row written by the folding or by the history step is always
/// reported as a change of the history; the callback is given the folding's
/// row whenever the folding opened one, whatever the history step wrote, and
/// the history step's row otherwise.
pub proof fn lemma_outcome_reports_written_rows(flushed: Option<i64>, recorded: Option<i64>)
    ensures
        outcome_changed(flushed, recorded).contains(InsertModifyed::BatteryHistory) <==> (
        flushed is Some || recorded is Some),
        flushed is Some ==> outcome_notify(flushed, recorded) == flushed,
        flushed is None ==> outcome_notify(flushed, recorded) == recorded,
{
    if flushed is Some || recorded is Some {
        assert(outcome_changed(flushed, recorded)[0] == InsertModifyed::BatteryHistory);
    }
}

} // verus!
