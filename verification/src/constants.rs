//! Fixed-point constants of the rate arithmetic.

use vstd::prelude::*;

verus! {

/// Scale of the fixed-point rate: a rate of `RATE_PRECISION` means one
/// asset unit per share.
pub const RATE_PRECISION: u64 = 1_000_000_000;

/// Rate of a freshly initialized vault: one asset unit per share.
pub const INITIAL_RATE: u64 = RATE_PRECISION;

} // verus!
