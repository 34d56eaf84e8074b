//! Spans of time, as `std::time::Duration` carries them.

use std::time::Duration;
use vstd::prelude::*;

verus! {

/// The length of a span in nanoseconds.
pub uninterp spec fn duration_nanos(span: Duration) -> nat;

/// `Duration::from_nanos`: the span of the given number of nanoseconds.
#[verifier::external_body]
pub(crate) fn duration_from_nanos(nanos: u64) -> (span: Duration)
    ensures
        duration_nanos(span) == nanos,
{
    Duration::from_nanos(nanos)
}

} // verus!
