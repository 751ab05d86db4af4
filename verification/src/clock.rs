//! Timestamps of the bus, as plain values.
use vstd::prelude::*;

use chrono::Utc;

verus! {

/// A UTC instant: whole seconds since the Unix epoch and the nanoseconds
/// past that second.  `nanos` is below 10^9, or up to 1_999_999_999 where
/// the instant falls in a leap second; this is `chrono::DateTime<Utc>`'s
/// own split (`timestamp()`, `timestamp_subsec_nanos()`), so that the two
/// convert into each other without loss.
#[derive(Debug, Clone, Copy, PartialEq, Eq, Structural)]
pub struct UtcTimestamp {
    pub secs: i64,
    pub nanos: u32,
}

/// Calls `chrono::Utc::now`, which reads the system clock, and splits the
/// instant into seconds and nanoseconds.  Stated of the result: it is not
/// before the Unix epoch (`Utc::now` measures a `Duration` since the epoch
/// and panics on a clock set before it), and its nanoseconds are below
/// 10^9 (the `Duration`'s sub-second nanoseconds).  The instant itself
/// depends on the time and is not stated.
#[verifier::external_body]
pub(crate) fn utc_now() -> (t: UtcTimestamp)
    ensures
        t.secs >= 0,
        t.nanos < 1_000_000_000,
{
    let now = Utc::now();
    UtcTimestamp { secs: now.timestamp(), nanos: now.timestamp_subsec_nanos() }
}

} // verus!
