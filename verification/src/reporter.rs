//! Throughput arithmetic for the periodic reporter.
//!
//! The reporter thread wakes every reporting interval (sleeping in short
//! sub-intervals so it can observe the termination flag promptly), drains
//! the operation counter, and prints `drained / elapsed` as a rate. The
//! polling sleeps and the clock live with the caller; the rate itself is
//! computed here, in hundredths of an operation per second so the
//! quotient is exact integer arithmetic.

use vstd::prelude::*;

verus! {

/// The rate in hundredths of an operation per second:
/// `count / elapsed_seconds * 100`, rounded down.
pub open spec fn spec_rate_centi_per_sec(count: u64, elapsed_micros: u64) -> int {
    (count * 100_000_000) / (elapsed_micros as int)
}

/// Computes the throughput over one drain window, in hundredths of an
/// operation per second. `count` is the drained counter value and
/// `elapsed_micros` the wall-clock length of the window in microseconds,
/// which a caller measures as strictly positive.
pub fn rate_centi_per_sec(count: u64, elapsed_micros: u64) -> (r: u128)
    requires
        elapsed_micros > 0,
    ensures
        r == spec_rate_centi_per_sec(count, elapsed_micros),
{
    proof {
        assert((count as u128) * 100_000_000 <= (u64::MAX as u128) * 100_000_000) by (nonlinear_arith)
            requires
                count <= u64::MAX,
        ;
    }
    ((count as u128) * 100_000_000) / (elapsed_micros as u128)
}

} // verus!
