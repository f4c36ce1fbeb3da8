use battery_master::service::{
    persistence_action, power_refresh, PersistenceAction, PowerLockClock, PowerRefresh,
};
use battery_master::system_status::{supports_power_limit, Identifier};

#[test]
fn store_follows_settings() {
    assert_eq!(persistence_action(true, true, false), PersistenceAction::Open);
    assert_eq!(persistence_action(true, true, true), PersistenceAction::Keep);
    assert_eq!(persistence_action(false, true, true), PersistenceAction::Close);
    assert_eq!(persistence_action(true, false, true), PersistenceAction::Close);
    assert_eq!(persistence_action(false, false, false), PersistenceAction::Keep);
}

#[test]
fn power_readings() {
    assert_eq!(power_refresh(true, true, true), PowerRefresh::Refresh);
    assert_eq!(power_refresh(true, true, false), PowerRefresh::DropSupport);
    assert_eq!(power_refresh(false, true, true), PowerRefresh::Skip);
    assert_eq!(power_refresh(true, false, false), PowerRefresh::Skip);
}

#[test]
fn power_lock_checks() {
    let mut c = PowerLockClock { lastcheck: 0 };
    assert!(c.check_due(true, true, true, 11, true));
    assert_eq!(c.lastcheck, 11);
    assert!(!c.check_due(true, true, true, 21, true));
    assert!(c.check_due(true, true, true, 22, true));
    assert!(!c.check_due(false, true, true, 100, true));
    assert!(!c.check_due(true, true, true, 100, false));
    assert_eq!(c.lastcheck, 22);
}

#[test]
fn amd_power_limits() {
    assert!(supports_power_limit("AuthenticAMD"));
    assert!(!supports_power_limit("GenuineIntel"));
}

#[test]
fn identifiers() {
    let i = Identifier::describe(Some("Ryzen AI 9 HX 370".to_string()), None, Some(32), None);
    assert_eq!(i.cpu_name, "Ryzen AI 9 HX 370");
    assert_eq!(i.cpu_vendor, "Unknown");
    assert_eq!(i.mem_total, 32);
    assert_eq!(i.hostname, "Unknown");
    let d = Identifier::default();
    assert!(d.cpu_name.is_empty() && d.cpu_vendor.is_empty() && d.hostname.is_empty());
    assert_eq!(d.mem_total, 0);
}
