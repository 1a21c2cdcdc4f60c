//! Points in time, as plain values, and the calls into chrono that produce them.
use vstd::prelude::*;

verus! {

/// Seconds in one day.
pub const SECONDS_PER_DAY: i64 = 86400;

/// An absolute point in time in UTC: whole seconds since the Unix epoch and the
/// nanoseconds into that second. During a leap second `nanos` goes past
/// 999_999_999, as it does in chrono.
#[derive(Clone, Copy, Debug, PartialEq, Eq, Structural)]
pub struct Timestamp {
    pub secs: i64,
    pub nanos: u32,
}

/// `a` is not later than the instant `b_secs` seconds and `b_nanos` nanoseconds
/// after the epoch.
pub open spec fn not_after(a: Timestamp, b_secs: int, b_nanos: int) -> bool {
    a.secs < b_secs || (a.secs == b_secs && a.nanos <= b_nanos)
}

/// `t` lies no later than one day after `now` (an instant already past counts).
pub open spec fn within_a_day(t: Timestamp, now: Timestamp) -> bool {
    not_after(t, now.secs + SECONDS_PER_DAY, now.nanos as int)
}

/// The instant that an RFC 3339 text denotes, if it is one.
pub uninterp spec fn rfc3339_instant(s: Seq<char>) -> Option<Timestamp>;

impl Timestamp {
    pub fn new(secs: i64, nanos: u32) -> (r: Timestamp)
        ensures
            r.secs == secs,
            r.nanos == nanos,
    {
        Timestamp { secs, nanos }
    }

    /// Whether `self` lies no later than one day after `now`.
    pub fn is_within_a_day_of(&self, now: &Timestamp) -> (r: bool)
        ensures
            r == within_a_day(*self, *now),
    {
        let limit: i128 = now.secs as i128 + SECONDS_PER_DAY as i128;
        let secs: i128 = self.secs as i128;
        secs < limit || (secs == limit && self.nanos <= now.nanos)
    }
}

/// Relies on chrono's `From<SystemTime> for DateTime<Utc>`: the current time of
/// the system clock, a time before 1970 included, read through
/// `DateTime::timestamp` and `DateTime::timestamp_subsec_nanos`.
#[verifier::external_body]
pub(crate) fn current_time() -> (r: Timestamp) {
    let now = chrono::DateTime::<chrono::Utc>::from(std::time::SystemTime::now());
    Timestamp { secs: now.timestamp(), nanos: now.timestamp_subsec_nanos() }
}

/// Relies on chrono's `DateTime::parse_from_rfc3339`: the instant that the text
/// denotes, or an error when it is not an RFC 3339 date and time; the instant is
/// read through `DateTime::timestamp` and `DateTime::timestamp_subsec_nanos`.
#[verifier::external_body]
pub(crate) fn parse_rfc3339(s: &str) -> (r: Option<Timestamp>)
    ensures
        r == rfc3339_instant(s@),
{
    match chrono::DateTime::parse_from_rfc3339(s) {
        Ok(d) => Some(Timestamp { secs: d.timestamp(), nanos: d.timestamp_subsec_nanos() }),
        Err(_) => None,
    }
}

} // verus!
