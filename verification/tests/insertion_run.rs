use battery_master::insertion::{InsertAction, InsertEvent, InsertRun, InsertStage};
use battery_master::store::{HistoryPlan, InsertModifyed, StoreSchedule};

fn schedule(last: i64, need_init: bool) -> StoreSchedule {
    StoreSchedule { last_save_at: last, interval_secs: 10, history_need_init: need_init }
}

#[test]
fn quiet_insert_without_folding() {
    let mut s = schedule(1_000, false);
    let mut r = InsertRun::new(1_005, false);
    assert!(matches!(r.step(&mut s, InsertEvent::Go), InsertAction::WriteMemory));
    assert!(matches!(r.step(&mut s, InsertEvent::MemoryWritten), InsertAction::RunHistory(HistoryPlan::Skip)));
    match r.step(&mut s, InsertEvent::HistoryDone(None)) {
        InsertAction::Finish(changed) => assert!(changed.is_empty()),
        other => panic!("unexpected {:?}", other),
    }
    assert_eq!(r.stage, InsertStage::Done);
    assert_eq!(s, schedule(1_000, false));
}

#[test]
fn first_row_then_callback() {
    let mut s = schedule(1_000, true);
    let mut r = InsertRun::new(1_005, false);
    r.step(&mut s, InsertEvent::Go);
    assert!(matches!(r.step(&mut s, InsertEvent::MemoryWritten), InsertAction::RunHistory(HistoryPlan::InitIfEmpty)));
    assert!(!s.history_need_init);
    assert!(matches!(r.step(&mut s, InsertEvent::HistoryDone(Some(1_005))), InsertAction::Notify(1_005)));
    match r.step(&mut s, InsertEvent::Notified) {
        InsertAction::Finish(changed) => assert_eq!(changed, vec![InsertModifyed::BatteryHistory]),
        other => panic!("unexpected {:?}", other),
    }
}

#[test]
fn folding_prefers_its_history_row() {
    let mut s = schedule(1_000, false);
    let mut r = InsertRun::new(2_000, true);
    r.step(&mut s, InsertEvent::Go);
    assert!(matches!(
        r.step(&mut s, InsertEvent::MemoryWritten),
        InsertAction::RunHistory(HistoryPlan::RecordTransition)
    ));
    match r.step(&mut s, InsertEvent::HistoryDone(Some(2_000))) {
        InsertAction::RunFlush(p) => {
            assert_eq!(p.realtime_params.start_time, 1_990);
            assert_eq!(p.one_minute_params.start_time, 1_920);
        }
        other => panic!("unexpected {:?}", other),
    }
    assert_eq!(s.last_save_at, 2_000);
    assert!(matches!(r.step(&mut s, InsertEvent::FlushDone(Some(7))), InsertAction::Notify(7)));
    assert!(matches!(r.step(&mut s, InsertEvent::Notified), InsertAction::Finish(_)));
}

#[test]
fn lost_table_is_reconnected_once() {
    let mut s = schedule(1_000, false);
    let mut r = InsertRun::new(1_001, false);
    r.step(&mut s, InsertEvent::Go);
    let lost = "error returned from database: no such table: memory_battery_status".to_string();
    assert!(matches!(r.step(&mut s, InsertEvent::MemoryWriteFailed(lost.clone())), InsertAction::Reconnect));
    assert!(matches!(r.step(&mut s, InsertEvent::Reconnected), InsertAction::WriteMemory));
    assert_eq!(r.stage, InsertStage::AwaitMemoryWrite { retried: true });
    assert!(matches!(r.step(&mut s, InsertEvent::MemoryWriteFailed(lost)), InsertAction::GiveUp));
    assert_eq!(r.stage, InsertStage::Done);
}

#[test]
fn other_failures_give_up() {
    let mut s = schedule(1_000, false);
    let mut r = InsertRun::new(1_001, false);
    r.step(&mut s, InsertEvent::Go);
    assert!(matches!(r.step(&mut s, InsertEvent::MemoryWriteFailed("disk I/O error".to_string())), InsertAction::GiveUp));
    let mut r = InsertRun::new(1_001, false);
    r.step(&mut s, InsertEvent::Go);
    r.step(&mut s, InsertEvent::MemoryWritten);
    assert!(matches!(r.step(&mut s, InsertEvent::StepFailed), InsertAction::GiveUp));
    assert!(matches!(r.step(&mut s, InsertEvent::Go), InsertAction::GiveUp));
    assert_eq!(r.stage, InsertStage::Done);
}
