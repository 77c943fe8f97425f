//! Fractions as whole numbers of millionths.
//!
//! Scores, weights and shares of a budget are fractions between zero and
//! one. They are held as integers that count millionths, so that every
//! comparison and every product is exact.

use vstd::prelude::*;

verus! {

/// One, in millionths.
pub const SCALE: u32 = 1_000_000;

/// Largest distance from one at which a sum of shares still counts as one:
/// a hundredth.
pub const SUM_TOLERANCE: u32 = 10_000;

/// `amount` times the fraction `share`, rounded down.
pub open spec fn scaled(amount: int, share: int) -> int {
    amount * share / (SCALE as int)
}

/// Whether shares that add up to `sum` millionths add up to one, within the
/// tolerance.
pub open spec fn sums_to_one(sum: int) -> bool {
    SCALE - SUM_TOLERANCE <= sum <= SCALE + SUM_TOLERANCE
}

/// `amount` times the fraction `share`, rounded down.
pub fn scale(amount: usize, share: u32) -> (r: u128)
    ensures
        r == scaled(amount as int, share as int),
{
    assert(0 <= (amount as int) * (share as int) <= 0xffff_ffff_ffff_ffff * 0xffff_ffff) by (nonlinear_arith)
        requires
            0 <= amount <= 0xffff_ffff_ffff_ffff,
            0 <= share <= 0xffff_ffff,
    ;
    (amount as u128) * (share as u128) / (SCALE as u128)
}

} // verus!
