use battery_master::charge::{energy_rate_direction, ChargeState, RateDirection, StateTracker};

const NAMED: [ChargeState; 5] = [
    ChargeState::Unknown,
    ChargeState::Charging,
    ChargeState::Discharging,
    ChargeState::Empty,
    ChargeState::Full,
];

#[test]
fn labels() {
    assert_eq!(ChargeState::Unknown.label(), "Unknown");
    assert_eq!(ChargeState::Charging.label(), "Charging");
    assert_eq!(ChargeState::Discharging.label(), "Discharging");
    assert_eq!(ChargeState::Empty.label(), "Empty");
    assert_eq!(ChargeState::Full.label(), "Full");
    assert_eq!(ChargeState::Nonexhaustive.label(), "Nonexhaustive");
}

#[test]
fn labels_read_back() {
    for s in NAMED {
        assert_eq!(ChargeState::from_label(s.label()), Some(s));
    }
    assert_eq!(ChargeState::from_label("Nonexhaustive"), None);
    assert_eq!(ChargeState::from_label("charging"), None);
    assert_eq!(ChargeState::from_label(""), None);
}

#[test]
fn tracker_reports_changes() {
    let mut t = StateTracker::new();
    assert_eq!(t.prev, None);
    assert!(!t.observe(ChargeState::Charging));
    assert!(!t.observe(ChargeState::Charging));
    assert!(t.observe(ChargeState::Discharging));
    assert_eq!(t.prev, Some(ChargeState::Discharging));
    assert!(t.observe(ChargeState::Unknown));
    assert!(!t.observe(ChargeState::Full));
    assert!(t.observe(ChargeState::Charging));
}

#[test]
fn unknown_check() {
    assert!(ChargeState::Unknown.is_unknown());
    assert!(!ChargeState::Full.is_unknown());
}

#[test]
fn rate_directions() {
    assert_eq!(energy_rate_direction(ChargeState::Charging), RateDirection::Positive);
    assert_eq!(energy_rate_direction(ChargeState::Discharging), RateDirection::Negative);
    assert_eq!(energy_rate_direction(ChargeState::Full), RateDirection::Zero);
    assert_eq!(energy_rate_direction(ChargeState::Unknown), RateDirection::Zero);
}
