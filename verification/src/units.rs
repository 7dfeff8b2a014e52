//! Fixed-point conventions shared by the whole crate.
//!
//! Every fractional quantity is carried as an integer count of thousandths
//! ("milli-units"): a price of `2000.5` is `2_000_500`, a risk fraction of
//! `0.02` is `20`, a signal strength of `0.8` is `800`.

use vstd::prelude::*;

verus! {

/// Largest price the engine works with, in milli-units (one billion units).
/// Bounding prices keeps indicator window sums inside `i64`.
pub const MAX_PRICE_MILLI: i64 = 1_000_000_000_000;

/// Largest account balance or volume the engine works with, in milli-units
/// (one trillion units). Bounding balances keeps position sizing inside `i64`.
pub const MAX_MONEY_MILLI: i64 = 1_000_000_000_000_000;

/// Largest indicator period accepted. Bounding the window length keeps the
/// sum of a full window of maximal prices inside `i64`.
pub const MAX_PERIOD: usize = 1_000_000;

/// Division that rounds half away from zero, for non-negative numerators
/// and positive denominators.
pub open spec fn round_half_up(n: int, d: int) -> int
    recommends
        n >= 0,
        d > 0,
{
    (2 * n + d) / (2 * d)
}

} // verus!
