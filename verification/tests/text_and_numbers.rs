use chrono::{DateTime, Timelike};
use battery_master::clock::minute_start;
use battery_master::decimal::{append_decimal, i64_to_decimal};
use battery_master::text::{chars_of, contains_text, owned_text, same_text};

#[test]
fn decimal_matches_display() {
    for n in [0i64, 1, 9, 10, 42, 99, 100, 1_000_000, -1, -9, -10, -12345, i64::MAX, i64::MIN] {
        assert_eq!(i64_to_decimal(n), n.to_string());
    }
    for n in -2000i64..2000 {
        assert_eq!(i64_to_decimal(n), n.to_string());
    }
}

#[test]
fn decimal_appends() {
    let mut s = String::from("t=");
    append_decimal(&mut s, -307);
    assert_eq!(s, "t=-307");
}

#[test]
fn text_search() {
    assert!(contains_text("error: no such table: memory_battery_status", "no such table"));
    assert!(contains_text("abc", ""));
    assert!(contains_text("abc", "abc"));
    assert!(!contains_text("ab", "abc"));
    assert!(!contains_text("abcabd", "abe"));
    assert!(contains_text("aaab", "aab"));
    assert!(contains_text("héllo wörld", "ö"));
}

#[test]
fn text_helpers() {
    assert!(same_text("Full", "Full"));
    assert!(!same_text("Full", "full"));
    assert!(!same_text("Full", "Ful"));
    assert_eq!(owned_text("x y"), "x y".to_string());
    assert_eq!(chars_of("añb"), vec!['a', 'ñ', 'b']);
}

#[test]
fn minute_start_floors() {
    assert_eq!(minute_start(0), 0);
    assert_eq!(minute_start(59), 0);
    assert_eq!(minute_start(60), 60);
    assert_eq!(minute_start(125), 120);
    assert_eq!(minute_start(-1), -60);
    assert_eq!(minute_start(-60), -60);
    assert_eq!(minute_start(-61), -120);
    assert_eq!(minute_start(1_725_029_869), 1_725_029_820);
}

#[test]
fn minute_start_agrees_with_chrono() {
    for t in [0i64, 1, 59, 61, 1_725_029_869, -1, -3601, 8_210_266_876_799, -8_334_601_228_800] {
        let expected = DateTime::from_timestamp(t, 0).unwrap().with_second(0).unwrap().timestamp();
        assert_eq!(minute_start(t), expected);
    }
}
