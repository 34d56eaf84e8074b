//! The fixed rate at which motion is turned into commands.

use crate::clock::{duration_from_nanos, duration_nanos};
use std::time::Duration;
use vstd::prelude::*;

verus! {

/// Commands are generated this many times a second.
pub const PRINTER_UPDATE_RATE_HZ: u64 = 30;

/// One period of the command generator in nanoseconds: a thirtieth of a
/// second, as single precision holds it.
pub const PRINTER_UPDATE_INTERVAL_NANOS: u64 = 33_333_335;

/// The time between two runs of the command generator.
pub fn printer_update_interval() -> (interval: Duration)
    ensures
        duration_nanos(interval) == PRINTER_UPDATE_INTERVAL_NANOS,
{
    duration_from_nanos(PRINTER_UPDATE_INTERVAL_NANOS)
}

/// A second holds `PRINTER_UPDATE_RATE_HZ` periods, to within a tenth of a
/// microsecond.
pub proof fn lemma_interval_matches_rate()
    ensures
        1_000_000_000 <= PRINTER_UPDATE_INTERVAL_NANOS * PRINTER_UPDATE_RATE_HZ < 1_000_000_100,
{
}

} // verus!
