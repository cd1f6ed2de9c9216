//! The clock, and how a moment is written down.

use crate::text::opt_text;
use vstd::prelude::*;

verus! {

/// A moment as `chrono` writes it in the RFC 3339 form of ISO 8601, given as
/// whole seconds since the Unix epoch and the nanoseconds into the second;
/// `None` for a moment that `chrono` cannot hold.
pub uninterp spec fn rfc3339_text(seconds: int, nanos: int) -> Option<Seq<char>>;

/// Reads the wall clock through `std::time::SystemTime::now` and gives the
/// time since the Unix epoch, in whole seconds and the nanoseconds into the
/// second; both zero for a clock set before the epoch. Nothing is promised
/// of the reading: it differs from call to call.
#[verifier::external_body]
pub(crate) fn unix_time() -> (now: (u64, u32)) {
    match std::time::SystemTime::now().duration_since(std::time::UNIX_EPOCH) {
        Ok(elapsed) => (elapsed.as_secs(), elapsed.subsec_nanos()),
        Err(_) => (0, 0),
    }
}

/// Calls `chrono::DateTime::from_timestamp`, which gives `None` for a moment
/// that is out of range, and `DateTime::to_rfc3339` on what it gives. The
/// contract names the text.
#[verifier::external_body]
pub(crate) fn write_rfc3339(seconds: i64, nanos: u32) -> (stamp: Option<String>)
    ensures
        match stamp {
            Some(text) => rfc3339_text(seconds as int, nanos as int) == Some(text@),
            None => rfc3339_text(seconds as int, nanos as int) is None,
        },
{
    match chrono::DateTime::from_timestamp(seconds, nanos) {
        Some(moment) => Some(moment.to_rfc3339()),
        None => None,
    }
}

/// The present second, counted from the Unix epoch.
pub fn unix_seconds() -> (now: u64) {
    unix_time().0
}

/// A moment written in the RFC 3339 form of ISO 8601; `None` for a moment
/// too far from the epoch to be written.
pub open spec fn timestamp_text(seconds: int, nanos: int) -> Option<Seq<char>> {
    if seconds <= i64::MAX {
        rfc3339_text(seconds, nanos)
    } else {
        None
    }
}

/// Writes a moment, given as whole seconds since the Unix epoch and the
/// nanoseconds into the second, in the RFC 3339 form of ISO 8601.
pub fn timestamp_at(seconds: u64, nanos: u32) -> (stamp: Option<String>)
    ensures
        match stamp {
            Some(text) => timestamp_text(seconds as int, nanos as int) == Some(text@),
            None => timestamp_text(seconds as int, nanos as int) is None,
        },
{
    if seconds <= 0x7fff_ffff_ffff_ffff {
        write_rfc3339(seconds as i64, nanos)
    } else {
        None
    }
}

/// Writes the present moment in the RFC 3339 form of ISO 8601; `None` where
/// the clock is too far from the epoch. Which moment the clock shows is not
/// known beforehand, but the result is, text or `None`, what one reading of
/// the clock is written as.
pub fn utc_timestamp() -> (stamp: Option<String>)
    ensures
        exists|seconds: u64, nanos: u32|
            opt_text(stamp) == #[trigger] timestamp_text(seconds as int, nanos as int),
{
    let now = unix_time();
    let stamp = timestamp_at(now.0, now.1);
    assert(opt_text(stamp) == timestamp_text(now.0 as int, now.1 as int));
    stamp
}

} // verus!
