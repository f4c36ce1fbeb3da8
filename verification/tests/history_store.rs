use battery_master::charge::ChargeState;
use battery_master::down_sample::build_down_sample_sql;
use battery_master::store::{
    build_history_average_sql, insert_outcome, memory_write_recovery, plan_history_average,
    opened_history_row, plan_last_history, plan_transition, row_write, HistoryHead, HistoryPlan, InsertModifyed,
    MemoryWriteRecovery, RowWrite, StoreSchedule,
};

#[test]
fn lost_memory_table_is_reconnected() {
    assert_eq!(
        memory_write_recovery("error returned from database: (code: 1) no such table: memory_battery_status"),
        MemoryWriteRecovery::Reconnect
    );
    assert_eq!(memory_write_recovery("database is locked"), MemoryWriteRecovery::Fail);
    assert_eq!(memory_write_recovery("no such table: battery_realtime"), MemoryWriteRecovery::Fail);
}

#[test]
fn schedule_defaults_and_open() {
    assert_eq!(
        StoreSchedule::default(),
        StoreSchedule { last_save_at: 0, interval_secs: 10, history_need_init: false }
    );
    let before = chrono::Utc::now().timestamp();
    let s = StoreSchedule::open(10, true);
    assert!(s.last_save_at >= before);
    assert_eq!(s.interval_secs, 10);
    assert!(s.history_need_init);
}

#[test]
fn first_history_row_is_owed_once() {
    let mut s = StoreSchedule { last_save_at: 0, interval_secs: 10, history_need_init: true };
    assert_eq!(s.plan_history(false), HistoryPlan::InitIfEmpty);
    assert!(!s.history_need_init);
    assert_eq!(s.plan_history(false), HistoryPlan::Skip);
    assert_eq!(s.plan_history(true), HistoryPlan::RecordTransition);
    let mut t = StoreSchedule { last_save_at: 0, interval_secs: 10, history_need_init: true };
    assert_eq!(t.plan_history(true), HistoryPlan::RecordTransition);
    assert!(t.history_need_init);
}

#[test]
fn folding_every_interval() {
    let mut s = StoreSchedule { last_save_at: 1_000, interval_secs: 10, history_need_init: false };
    assert!(!s.flush_due(1_010));
    assert!(s.begin_flush(1_010).is_none());
    assert_eq!(s.last_save_at, 1_000);
    assert!(s.flush_due(1_011));
    let p = s.begin_flush(1_000_125).expect("a folding is due");
    assert_eq!(s.last_save_at, 1_000_125);
    assert!(!s.flush_due(1_000_125));
    assert_eq!(p.memory_cutoff, 1_000_125 - 60);
    assert_eq!(p.realtime_cutoff, 1_000_125 - 86_400);
    assert_eq!(p.one_minute_cutoff, 1_000_125 - 604_800);
    let r = &p.realtime_params;
    assert_eq!(r.time_formater, "%Y-%m-%dT%H:%M:%SZ");
    assert_eq!(r.table_name, "memory_battery_status");
    assert_eq!(r.time_field, "timestamp");
    assert_eq!(r.order_field, "id");
    assert_eq!((r.start_time, r.end_time, r.interval_secs), (1_000_115, 1_000_125, 2));
    let m = &p.one_minute_params;
    assert_eq!(m.time_formater, "%Y-%m-%dT%H:%M:00Z");
    assert_eq!(m.table_name, "battery_realtime");
    assert_eq!(m.time_field, "timestamp");
    assert_eq!(m.order_field, "timestamp");
    assert_eq!((m.start_time, m.end_time, m.interval_secs), (1_000_020, 1_000_125, 1));
    assert!(build_down_sample_sql(m).contains("timestamp>1000020 and timestamp<=1000125"));
}

#[test]
fn folding_at_the_epoch() {
    let mut s = StoreSchedule { last_save_at: -100, interval_secs: 10, history_need_init: false };
    let p = s.begin_flush(30).unwrap();
    assert_eq!(p.one_minute_params.start_time, -60);
    assert_eq!(p.realtime_params.start_time, 20);
}

fn head(ts: i64, state: &str, end_at: Option<i64>) -> Option<HistoryHead> {
    Some(HistoryHead { timestamp: ts, state: state.to_string(), end_at })
}

#[test]
fn first_period_on_empty_history() {
    let p = plan_last_history(&None, ChargeState::Charging);
    assert!(p.open_new && p.prev_state.is_none() && !p.refresh_last && !p.close_last);
    let p = plan_last_history(&None, ChargeState::Unknown);
    assert!(p.open_new);
}

#[test]
fn new_period_on_state_change() {
    let p = plan_last_history(&head(100, "Discharging", None), ChargeState::Charging);
    assert!(p.open_new && p.refresh_last && p.close_last);
    assert_eq!(p.prev_state.as_deref(), Some("Discharging"));
}

#[test]
fn no_new_period_otherwise() {
    for (h, s) in [
        (head(100, "Charging", None), ChargeState::Charging),
        (head(100, "Discharging", Some(150)), ChargeState::Charging),
        (head(100, "Discharging", None), ChargeState::Unknown),
    ] {
        let p = plan_last_history(&h, s);
        assert!(!p.open_new && p.refresh_last && !p.close_last && p.prev_state.is_none());
    }
}

#[test]
fn transition_closes_previous_period() {
    let p = plan_transition(500, &head(100, "Full", None));
    assert_eq!(p.prev_state.as_deref(), Some("Full"));
    assert_eq!(p.close_prev_at, Some(500));
    let p = plan_transition(500, &None);
    assert!(p.prev_state.is_none() && p.close_prev_at.is_none());
}

#[test]
fn upserts() {
    assert_eq!(row_write(true), RowWrite::Update);
    assert_eq!(row_write(false), RowWrite::Insert);
    assert_eq!(opened_history_row(RowWrite::Insert, 42), Some(42));
    assert_eq!(opened_history_row(RowWrite::Update, 42), None);
}

#[test]
fn average_window() {
    let week = 604_800;
    assert_eq!(plan_history_average(2_000_000, 1_900_000, None), Some(1_900_000));
    assert_eq!(plan_history_average(2_000_000, 100, None), Some(2_000_000 - week));
    assert_eq!(plan_history_average(2_000_000, 2_000_000 - week, None), Some(2_000_000 - week));
    assert_eq!(plan_history_average(2_000_000, 100, Some(5)), None);
}

#[test]
fn average_query() {
    let (timestamp, now) = (1_699_000_000i64, 1_700_000_000i64);
    let expected = format!(
        r#"
SELECT 
    AVG(energy_rate) as energy_rate,
    AVG(voltage) as voltage,
    AVG(cpu_load) as cpu_load
FROM battery_one_minutes
WHERE timestamp BETWEEN {timestamp} AND {now}
"#
    );
    assert_eq!(build_history_average_sql(timestamp, now), expected);
}

#[test]
fn insert_outcomes() {
    let o = insert_outcome(Some(7), Some(9));
    assert_eq!(o.changed, vec![InsertModifyed::BatteryHistory]);
    assert_eq!(o.notify, Some(7));
    let o = insert_outcome(None, Some(9));
    assert_eq!(o.changed, vec![InsertModifyed::BatteryHistory]);
    assert_eq!(o.notify, Some(9));
    let o = insert_outcome(None, None);
    assert!(o.changed.is_empty());
    assert_eq!(o.notify, None);
}
