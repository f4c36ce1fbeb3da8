//! Unix timestamps: the clock, the UTC text form of a timestamp, and
//! whole minutes. chrono keeps every `DateTime<Utc>` between
//! `DateTime::<Utc>::MIN_UTC` and `DateTime::<Utc>::MAX_UTC`.

use vstd::prelude::*;

verus! {

/// The timestamp of `DateTime::<Utc>::MIN_UTC` (January 1 of year -262143, 00:00:00).
pub const UTC_MIN_TIMESTAMP: i64 = -8334601228800i64;

/// The timestamp of `DateTime::<Utc>::MAX_UTC` (December 31 of year 262142, 23:59:59).
pub const UTC_MAX_TIMESTAMP: i64 = 8210266876799i64;

/// Seconds in a minute.
pub const SECS_PER_MINUTE: i64 = 60i64;

/// Seconds in a day.
pub const SECS_PER_DAY: i64 = 86400i64;

/// Seconds in a week.
pub const SECS_PER_WEEK: i64 = 604800i64;

/// A timestamp that chrono can hold as a `DateTime<Utc>`.
pub open spec fn utc_representable(t: int) -> bool {
    UTC_MIN_TIMESTAMP <= t <= UTC_MAX_TIMESTAMP
}

/// `chrono::Utc::now().timestamp()`: the seconds since the Unix epoch of the
/// present moment. The contract claims only that the value is the timestamp of
/// a `DateTime<Utc>`, hence within chrono's range; which value the clock gives
/// is left open.
#[verifier::external_body]
pub(crate) fn utc_now_timestamp() -> (t: i64)
    ensures
        utc_representable(t as int),
{
    chrono::Utc::now().timestamp()
}

/// What chrono's `FromStr` for `DateTime<Utc>` makes of a text: the timestamp
/// of the date and time it reads, or `None` where the text is no date and time
/// it accepts.
pub uninterp spec fn utc_text_timestamp(text: Seq<char>) -> Option<i64>;

/// `<chrono::DateTime<chrono::Utc> as FromStr>::from_str(text)` followed by
/// `DateTime::timestamp`: the contract names the outcome `utc_text_timestamp`
/// of the text's characters; the grammar chrono reads is not restated here.
#[verifier::external_body]
pub(crate) fn parse_utc_timestamp(text: &str) -> (r: Option<i64>)
    ensures
        r == utc_text_timestamp(text@),
{
    match text.parse::<chrono::DateTime<chrono::Utc>>() {
        Ok(dt) => Some(dt.timestamp()),
        Err(_) => None,
    }
}

/// The start of the minute that holds `t`: `t` with its seconds set to zero.
pub open spec fn minute_floor(t: int) -> int {
    t - t % 60
}

/// The start of the minute that holds the timestamp `t`, as chrono's
/// `DateTime::from_timestamp(t, 0)` followed by `with_second(0)` gives it.
pub fn minute_start(t: i64) -> (m: i64)
    requires
        utc_representable(t as int),
    ensures
        m == minute_floor(t as int),
        utc_representable(m as int),
        m <= t < m + 60,
        m % 60 == 0,
{
    let shifted: u64 = (t - UTC_MIN_TIMESTAMP) as u64;
    let r: u64 = shifted % 60;
    proof {
        let a: int = UTC_MIN_TIMESTAMP as int / 60;
        assert(UTC_MIN_TIMESTAMP as int == 60 * a);
        assert(t as int == 60 * a + shifted as int);
        vstd::arithmetic::div_mod::lemma_mod_multiples_vanish(a, shifted as int, 60);
        vstd::arithmetic::div_mod::lemma_mod_pos_bound(shifted as int, 60);
        vstd::arithmetic::div_mod::lemma_fundamental_div_mod(t as int, 60);
        vstd::arithmetic::div_mod::lemma_mod_multiples_vanish(t as int / 60, 0, 60);
    }
    t - (r as i64)
}

} // verus!
