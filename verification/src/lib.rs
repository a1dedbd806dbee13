//! Relative Strength Index (RSI) over a univariate price time series.
//!
//! The pipeline takes an ordered series of (timestamp, price) rows and a
//! lookback period and derives, row by row: the first difference of the
//! price, its non-negative gain/loss decomposition, right-aligned rolling
//! averages of gain and loss, the relative strength RS = average gain /
//! average loss, and RSI = 100 - 100 / (1 + RS), bounded to [0, 100].
//!
//! Prices are fixed-point integers (the caller picks the scale); rolling
//! averages and RSI values are exact rationals, so every stage is a pure,
//! exactly specified function of the input series.

pub mod errors;
pub mod laws;
pub mod ratio;
pub mod rsi;
pub mod table;

use vstd::prelude::*;

verus! {

/// Largest magnitude a fixed-point price may take. The bound leaves room
/// for every intermediate of the pipeline in its machine integer: a price
/// change fits an `i64`, and a windowed sum times 100 fits an `i128`.
pub const PRICE_LIMIT: i64 = 1_000_000_000_000_000;

/// Largest magnitude of a single price change (two bounded prices).
pub const CHANGE_LIMIT: i64 = 2 * PRICE_LIMIT;

/// Largest magnitude of a windowed sum of price changes: at most
/// `usize::MAX` rows, each bounded by `CHANGE_LIMIT`.
pub const SUM_LIMIT: i128 = 37_000_000_000_000_000_000_000_000_000_000_000;

/// Copy of a column's values.
pub(crate) fn copy_values(v: &Vec<i64>) -> (r: Vec<i64>)
    ensures
        r@ == v@,
{
    let mut r: Vec<i64> = Vec::new();
    let mut k: usize = 0;
    while k < v.len()
        invariant
            0 <= k <= v@.len(),
            r@ == v@.subrange(0, k as int),
        decreases v@.len() - k,
    {
        r.push(v[k]);
        proof {
            assert(v@.subrange(0, k as int).push(v@[k as int]) =~= v@.subrange(0, k as int + 1));
        }
        k += 1;
    }
    proof {
        assert(v@.subrange(0, v@.len() as int) =~= v@);
    }
    r
}

} // verus!
