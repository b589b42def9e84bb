//! The system clock, in whole seconds.

use vstd::prelude::*;

verus! {

/// No reading of the clock is later than this many seconds after the epoch.
pub const CLOCK_MAX: u64 = 0x7fff_ffff_ffff_ffff;

/// `chrono::Utc::now` and `DateTime::timestamp`: the seconds that the system
/// clock counts since 1970-01-01 00:00:00 UTC. chrono reads the clock as a
/// time after the epoch and holds the seconds in an `i64`, so the reading is
/// never negative; a clock set before the epoch makes chrono panic.
#[verifier::external_body]
pub(crate) fn unix_now() -> (now: u64)
    ensures
        now <= CLOCK_MAX,
{
    chrono::Utc::now().timestamp() as u64
}

} // verus!
