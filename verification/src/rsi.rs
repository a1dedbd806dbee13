use vstd::prelude::*;

use crate::errors::IndicatorError;
use crate::ratio::{Ratio, RelativeStrength};
use crate::table::{resolve_columns, ColumnConfig, Series, Table};
use crate::{CHANGE_LIMIT, PRICE_LIMIT, SUM_LIMIT};

verus! {

/// First difference of the price series at row `i`. Row 0 has no prior
/// observation and is defined as 0; a row whose price is exactly 0 is also
/// forced to 0 (zero-filled placeholder rows must not produce spikes).
pub open spec fn price_change_at(price: Seq<i64>, i: int) -> int {
    if price[i] == 0 {
        0
    } else if i == 0 {
        0
    } else {
        price[i] - price[i - 1]
    }
}

/// Non-negative gain component of a signed change: `max(change, 0)`.
pub open spec fn gain_of(change: int) -> int {
    if change > 0 {
        change
    } else {
        0
    }
}

/// Non-negative loss magnitude of a signed change: `max(-change, 0)`.
pub open spec fn loss_of(change: int) -> int {
    if change < 0 {
        -change
    } else {
        0
    }
}

/// Sum of `s[lo..hi)`.
pub open spec fn sum_range(s: Seq<int>, lo: int, hi: int) -> int
    decreases hi - lo,
{
    if lo >= hi {
        0
    } else {
        sum_range(s, lo, hi - 1) + s[hi - 1]
    }
}

/// Lowest row of the right-aligned window that ends at row `i`: the window
/// holds `min(period, i + 1)` rows, so early rows use a shrinking window
/// instead of being undefined.
pub open spec fn window_lo(i: int, period: int) -> int {
    if i + 1 >= period {
        i + 1 - period
    } else {
        0
    }
}

/// Number of rows in the right-aligned window that ends at row `i`:
/// `min(period, i + 1)`, never below 1 for `i >= 0` and `period >= 1`.
pub open spec fn window_len(i: int, period: int) -> int {
    i + 1 - window_lo(i, period)
}

/// A sequence of `i64` values as mathematical integers.
pub open spec fn int_view(s: Seq<i64>) -> Seq<int> {
    Seq::new(s.len(), |i: int| s[i] as int)
}

/// PriceChangeCalculator: elementwise first difference of the price column.
/// Row 0 is 0 rather than undefined, and a row whose price is exactly 0 is
/// forced to 0 regardless of the previous value.
pub fn calculate_price_change(price: &Vec<i64>) -> (change: Vec<i64>)
    requires
        forall|i: int|
            0 <= i < price@.len() ==> -PRICE_LIMIT <= #[trigger] price@[i] <= PRICE_LIMIT,
    ensures
        change@.len() == price@.len(),
        forall|i: int|
            0 <= i < change@.len() ==> #[trigger] change@[i] == price_change_at(price@, i),
        price@.len() > 0 ==> change@[0] == 0,
        forall|i: int|
            0 <= i < change@.len() ==> -CHANGE_LIMIT <= #[trigger] change@[i] <= CHANGE_LIMIT,
{
    let mut change: Vec<i64> = Vec::new();
    let mut i: usize = 0;
    while i < price.len()
        invariant
            forall|k: int|
                0 <= k < price@.len() ==> -PRICE_LIMIT <= #[trigger] price@[k] <= PRICE_LIMIT,
            0 <= i <= price@.len(),
            change@.len() == i,
            forall|k: int|
                0 <= k < i ==> #[trigger] change@[k] == price_change_at(price@, k),
            forall|k: int|
                0 <= k < i ==> -CHANGE_LIMIT <= #[trigger] change@[k] <= CHANGE_LIMIT,
        decreases price@.len() - i,
    {
        let p = price[i];
        let c: i64 = if p == 0 {
            0
        } else if i == 0 {
            0
        } else {
            p - price[i - 1]
        };
        change.push(c);
        i += 1;
    }
    change
}

/// GainLossSplitter: partition each signed change into a non-negative gain
/// and a non-negative loss magnitude. The decomposition is exact:
/// `gain - loss == change` elementwise.
pub fn split_gain_loss(change: &Vec<i64>) -> (r: (Vec<i64>, Vec<i64>))
    requires
        forall|i: int|
            0 <= i < change@.len() ==> -CHANGE_LIMIT <= #[trigger] change@[i] <= CHANGE_LIMIT,
    ensures
        r.0@.len() == change@.len(),
        r.1@.len() == change@.len(),
        forall|i: int| 0 <= i < change@.len() ==> #[trigger] r.0@[i] == gain_of(change@[i] as int),
        forall|i: int| 0 <= i < change@.len() ==> #[trigger] r.1@[i] == loss_of(change@[i] as int),
        forall|i: int|
            0 <= i < change@.len() ==> 0 <= #[trigger] r.0@[i] <= CHANGE_LIMIT && 0 <= #[trigger] r.1@[i]
                <= CHANGE_LIMIT && r.0@[i] - r.1@[i] == change@[i],
{
    let mut gain: Vec<i64> = Vec::new();
    let mut loss: Vec<i64> = Vec::new();
    let mut i: usize = 0;
    while i < change.len()
        invariant
            forall|k: int|
                0 <= k < change@.len() ==> -CHANGE_LIMIT <= #[trigger] change@[k] <= CHANGE_LIMIT,
            0 <= i <= change@.len(),
            gain@.len() == i,
            loss@.len() == i,
            forall|k: int| 0 <= k < i ==> #[trigger] gain@[k] == gain_of(change@[k] as int),
            forall|k: int| 0 <= k < i ==> #[trigger] loss@[k] == loss_of(change@[k] as int),
        decreases change@.len() - i,
    {
        let c = change[i];
        if c > 0 {
            gain.push(c);
            loss.push(0);
        } else if c < 0 {
            gain.push(0);
            loss.push(-c);
        } else {
            gain.push(0);
            loss.push(0);
        }
        i += 1;
    }
    (gain, loss)
}

/// A windowed sum of values bounded by `b` in magnitude is bounded by the
/// window length times `b`.
pub proof fn lemma_sum_range_bounds(s: Seq<int>, lo: int, hi: int, b: int)
    requires
        lo <= hi,
        b >= 0,
        forall|k: int| lo <= k < hi ==> -b <= #[trigger] s[k] <= b,
    ensures
        -(hi - lo) * b <= sum_range(s, lo, hi) <= (hi - lo) * b,
    decreases hi - lo,
{
    if lo < hi {
        lemma_sum_range_bounds(s, lo, hi - 1, b);
        assert((hi - 1 - lo) * b + b == (hi - lo) * b) by (nonlinear_arith);
        assert(-(hi - 1 - lo) * b - b == -(hi - lo) * b) by (nonlinear_arith);
    } else {
        assert((hi - lo) * b == 0) by (nonlinear_arith)
            requires
                lo == hi,
        ;
    }
}

/// A windowed sum of non-negative values is non-negative.
pub proof fn lemma_sum_range_nonneg(s: Seq<int>, lo: int, hi: int)
    requires
        forall|k: int| lo <= k < hi ==> #[trigger] s[k] >= 0,
    ensures
        sum_range(s, lo, hi) >= 0,
    decreases hi - lo,
{
    if lo < hi {
        lemma_sum_range_nonneg(s, lo, hi - 1);
    }
}

/// A windowed sum of values that are all zero is zero.
pub proof fn lemma_sum_range_zero(s: Seq<int>, lo: int, hi: int)
    requires
        forall|k: int| lo <= k < hi ==> #[trigger] s[k] == 0,
    ensures
        sum_range(s, lo, hi) == 0,
    decreases hi - lo,
{
    if lo < hi {
        lemma_sum_range_zero(s, lo, hi - 1);
    }
}

/// A windowed sum of non-negative values with at least one positive value
/// is positive.
pub proof fn lemma_sum_range_pos(s: Seq<int>, lo: int, hi: int, witness: int)
    requires
        forall|k: int| lo <= k < hi ==> #[trigger] s[k] >= 0,
        lo <= witness < hi,
        s[witness] > 0,
    ensures
        sum_range(s, lo, hi) > 0,
    decreases hi - lo,
{
    if witness == hi - 1 {
        lemma_sum_range_nonneg(s, lo, hi - 1);
    } else {
        lemma_sum_range_pos(s, lo, hi - 1, witness);
    }
}

/// A windowed sum of price changes stays within `SUM_LIMIT`: the window
/// holds at most `usize::MAX` rows, each bounded by `CHANGE_LIMIT`.
proof fn lemma_sum_range_window_bound(s: Seq<int>, lo: int, hi: int)
    requires
        0 <= lo <= hi,
        hi - lo <= 0xffff_ffff_ffff_ffff,
        forall|k: int| lo <= k < hi ==> -CHANGE_LIMIT <= #[trigger] s[k] <= CHANGE_LIMIT,
    ensures
        -SUM_LIMIT <= sum_range(s, lo, hi) <= SUM_LIMIT,
{
    lemma_sum_range_bounds(s, lo, hi, CHANGE_LIMIT as int);
    vstd::arithmetic::mul::lemma_mul_inequality(
        hi - lo,
        0xffff_ffff_ffff_ffff,
        CHANGE_LIMIT as int,
    );
}

/// RollingAverageCalculator: right-aligned simple moving average of the
/// values over a trailing window of `period` rows, with a minimum window of
/// one row (early rows average over the rows seen so far). Each entry is the
/// exact rational (window sum, window length). Fails if `period < 1`.
pub fn period_rolling_mean(values: &Vec<i64>, period: usize) -> (r: Result<
    Vec<Ratio>,
    IndicatorError,
>)
    requires
        forall|i: int|
            0 <= i < values@.len() ==> -CHANGE_LIMIT <= #[trigger] values@[i] <= CHANGE_LIMIT,
    ensures
        r is Ok <==> period >= 1,
        r matches Err(e) ==> e matches IndicatorError::InvalidPeriod { period: p } && p == period,
        r matches Ok(out) ==> {
            &&& out@.len() == values@.len()
            &&& forall|i: int|
                0 <= i < out@.len() ==> (#[trigger] out@[i]).num == sum_range(
                    int_view(values@),
                    window_lo(i, period as int),
                    i + 1,
                ) && out@[i].den == window_len(i, period as int)
            &&& forall|i: int|
                0 <= i < out@.len() ==> -SUM_LIMIT <= (#[trigger] out@[i]).num <= SUM_LIMIT && 1
                    <= out@[i].den <= values@.len()
        },
{
    if period < 1 {
        return Err(IndicatorError::InvalidPeriod { period });
    }
    let n = values.len();
    let mut out: Vec<Ratio> = Vec::new();
    let mut i: usize = 0;
    while i < n
        invariant
            forall|k: int|
                0 <= k < values@.len() ==> -CHANGE_LIMIT <= #[trigger] values@[k] <= CHANGE_LIMIT,
            period >= 1,
            n == values@.len(),
            0 <= i <= n,
            out@.len() == i,
            forall|k: int|
                0 <= k < i ==> (#[trigger] out@[k]).num == sum_range(
                    int_view(values@),
                    window_lo(k, period as int),
                    k + 1,
                ) && out@[k].den == window_len(k, period as int),
            forall|k: int|
                0 <= k < i ==> -SUM_LIMIT <= (#[trigger] out@[k]).num <= SUM_LIMIT && 1
                    <= out@[k].den <= values@.len(),
        decreases n - i,
    {
        let lo: usize = if i + 1 >= period {
            i + 1 - period
        } else {
            0
        };
        let mut sum: i128 = 0;
        let mut j: usize = lo;
        while j <= i
            invariant
                forall|k: int|
                    0 <= k < values@.len() ==> -CHANGE_LIMIT <= #[trigger] values@[k]
                        <= CHANGE_LIMIT,
                n == values@.len(),
                0 <= i < n,
                lo <= j <= i + 1,
                sum == sum_range(int_view(values@), lo as int, j as int),
            decreases i + 1 - j,
        {
            proof {
                lemma_sum_range_window_bound(int_view(values@), lo as int, j as int);
            }
            sum = sum + values[j] as i128;
            j += 1;
        }
        proof {
            lemma_sum_range_window_bound(int_view(values@), lo as int, i + 1);
        }
        let den: i128 = (i + 1 - lo) as i128;
        out.push(Ratio { num: sum, den });
        i += 1;
    }
    Ok(out)
}

/// Relative strength derived from a window's gain sum `g` and loss sum `l`
/// (the shared window length cancels out of the quotient of the averages).
/// Zero loss with positive gain is the maximum-strength sentinel; zero loss
/// with zero gain is defined as 0 (no movement in either direction).
pub open spec fn rs_of(g: int, l: int) -> RelativeStrength {
    if l == 0 && g > 0 {
        RelativeStrength::MaxStrength
    } else if l == 0 {
        RelativeStrength::Finite(Ratio { num: 0, den: 1 })
    } else {
        RelativeStrength::Finite(Ratio { num: g as i128, den: l as i128 })
    }
}

/// RSI derived from a relative strength value:
/// `100 - 100 / (1 + p/q) == 100 * p / (p + q)` exactly, and the
/// maximum-strength sentinel maps to exactly 100.
pub open spec fn rsi_of(rs: RelativeStrength) -> Ratio {
    match rs {
        RelativeStrength::MaxStrength => Ratio { num: 100, den: 1 },
        RelativeStrength::Finite(q) => Ratio {
            num: (100 * q.num) as i128,
            den: (q.num + q.den) as i128,
        },
    }
}

/// Two rolling-average columns are aligned inputs for the RS stage: window
/// sums are non-negative and bounded, and each row's two averages share one
/// window length.
/// One row's pair of rolling averages is aligned: non-negative bounded
/// window sums over one shared window length.
pub open spec fn avg_row_aligned(g: Ratio, l: Ratio) -> bool {
    &&& 0 <= g.num <= SUM_LIMIT
    &&& 0 <= l.num <= SUM_LIMIT
    &&& g.den == l.den
    &&& g.den >= 1
}

pub open spec fn avgs_aligned(gain_avg: Seq<Ratio>, loss_avg: Seq<Ratio>) -> bool {
    &&& gain_avg.len() == loss_avg.len()
    &&& forall|i: int|
        0 <= i < gain_avg.len() ==> avg_row_aligned(#[trigger] gain_avg[i], loss_avg[i])
}

/// Every finite relative strength holds a well-formed, bounded ratio.
pub open spec fn rs_bounded(rs: Seq<RelativeStrength>) -> bool {
    forall|i: int|
        0 <= i < rs.len() ==> ((#[trigger] rs[i]) matches RelativeStrength::Finite(q) ==> 0
            <= q.num <= SUM_LIMIT && 1 <= q.den <= SUM_LIMIT)
}

/// RelativeStrengthCalculator: RS = average gain / average loss, elementwise
/// over aligned rolling averages. Both averages of a row share the same
/// window, so their denominators agree and the quotient is the ratio of the
/// two window sums. Division by zero is resolved by policy, not error: zero
/// loss with positive gain gives the maximum-strength sentinel, zero loss
/// with zero gain gives 0.
pub fn calculate_final_rs(gain_avg: &Vec<Ratio>, loss_avg: &Vec<Ratio>) -> (rs: Vec<
    RelativeStrength,
>)
    requires
        avgs_aligned(gain_avg@, loss_avg@),
    ensures
        rs@.len() == gain_avg@.len(),
        forall|i: int|
            0 <= i < rs@.len() ==> #[trigger] rs@[i] == rs_of(
                gain_avg@[i].num as int,
                loss_avg@[i].num as int,
            ),
        rs_bounded(rs@),
{
    let mut rs: Vec<RelativeStrength> = Vec::new();
    let mut i: usize = 0;
    while i < gain_avg.len()
        invariant
            avgs_aligned(gain_avg@, loss_avg@),
            0 <= i <= gain_avg@.len(),
            rs@.len() == i,
            forall|k: int|
                0 <= k < i ==> #[trigger] rs@[k] == rs_of(
                    gain_avg@[k].num as int,
                    loss_avg@[k].num as int,
                ),
            forall|k: int|
                0 <= k < i ==> ((#[trigger] rs@[k]) matches RelativeStrength::Finite(q) ==> 0
                    <= q.num <= SUM_LIMIT && 1 <= q.den <= SUM_LIMIT),
        decreases gain_avg@.len() - i,
    {
        let g = gain_avg[i].num;
        let l = loss_avg[i].num;
        if l == 0 && g > 0 {
            rs.push(RelativeStrength::MaxStrength);
        } else if l == 0 {
            rs.push(RelativeStrength::Finite(Ratio { num: 0, den: 1 }));
        } else {
            rs.push(RelativeStrength::Finite(Ratio { num: g, den: l }));
        }
        i += 1;
    }
    rs
}

/// RSIFormula: RSI = 100 - 100 / (1 + RS) as an exact rational, always in
/// [0, 100]. A finite RS of `p/q` gives `100 * p / (p + q)`; the
/// maximum-strength sentinel gives exactly 100.
pub fn calculate_final_rsi(rs: &Vec<RelativeStrength>) -> (rsi: Vec<Ratio>)
    requires
        rs_bounded(rs@),
    ensures
        rsi@.len() == rs@.len(),
        forall|i: int| 0 <= i < rsi@.len() ==> #[trigger] rsi@[i] == rsi_of(rs@[i]),
        forall|i: int|
            0 <= i < rsi@.len() ==> (#[trigger] rsi@[i]).den >= 1 && 0 <= rsi@[i].num <= 100
                * rsi@[i].den,
{
    let mut rsi: Vec<Ratio> = Vec::new();
    let mut i: usize = 0;
    while i < rs.len()
        invariant
            rs_bounded(rs@),
            0 <= i <= rs@.len(),
            rsi@.len() == i,
            forall|k: int| 0 <= k < i ==> #[trigger] rsi@[k] == rsi_of(rs@[k]),
            forall|k: int|
                0 <= k < i ==> (#[trigger] rsi@[k]).den >= 1 && 0 <= rsi@[k].num <= 100
                    * rsi@[k].den,
        decreases rs@.len() - i,
    {
        let v: Ratio = match rs[i] {
            RelativeStrength::MaxStrength => Ratio { num: 100, den: 1 },
            RelativeStrength::Finite(q) => Ratio { num: 100 * q.num, den: q.num + q.den },
        };
        rsi.push(v);
        i += 1;
    }
    rsi
}

/// Everything the pipeline derives from one input series, in pipeline
/// order. All columns have the input's row count; no row is dropped.
pub struct RsiTable {
    pub time: Vec<i64>,
    pub price: Vec<i64>,
    pub price_change: Vec<i64>,
    pub gain: Vec<i64>,
    pub loss: Vec<i64>,
    pub gain_avg: Vec<Ratio>,
    pub loss_avg: Vec<Ratio>,
    pub rs: Vec<RelativeStrength>,
    pub rsi: Vec<Ratio>,
}

/// Full functional specification of the pipeline: what every derived column
/// of `out` holds for the input series (`time`, `price`) and `period`.
pub open spec fn rsi_table_spec(time: Seq<i64>, price: Seq<i64>, period: int, out: RsiTable) -> bool {
    let n = price.len() as int;
    let changes = Seq::new(price.len(), |i: int| price_change_at(price, i));
    let gains = Seq::new(price.len(), |i: int| gain_of(changes[i]));
    let losses = Seq::new(price.len(), |i: int| loss_of(changes[i]));
    &&& out.time@ == time
    &&& out.price@ == price
    &&& out.price_change@.len() == n
    &&& out.gain@.len() == n
    &&& out.loss@.len() == n
    &&& out.gain_avg@.len() == n
    &&& out.loss_avg@.len() == n
    &&& out.rs@.len() == n
    &&& out.rsi@.len() == n
    &&& forall|i: int| 0 <= i < n ==> #[trigger] out.price_change@[i] == changes[i]
    &&& forall|i: int| 0 <= i < n ==> #[trigger] out.gain@[i] == gains[i]
    &&& forall|i: int| 0 <= i < n ==> #[trigger] out.loss@[i] == losses[i]
    &&& forall|i: int|
        0 <= i < n ==> #[trigger] out.gain_avg@[i] == (Ratio {
            num: sum_range(gains, window_lo(i, period), i + 1) as i128,
            den: window_len(i, period) as i128,
        })
    &&& forall|i: int|
        0 <= i < n ==> #[trigger] out.loss_avg@[i] == (Ratio {
            num: sum_range(losses, window_lo(i, period), i + 1) as i128,
            den: window_len(i, period) as i128,
        })
    &&& forall|i: int|
        0 <= i < n ==> #[trigger] out.rs@[i] == rs_of(
            sum_range(gains, window_lo(i, period), i + 1),
            sum_range(losses, window_lo(i, period), i + 1),
        )
    &&& forall|i: int| 0 <= i < n ==> #[trigger] out.rsi@[i] == rsi_of(out.rs@[i])
}

/// The whole indicator pipeline over a resolved series: price change,
/// gain/loss split, rolling averages, RS, RSI. Errors are terminal: a series
/// of fewer than two rows or a period below one aborts the computation; on
/// success every derived column is pinned by `rsi_table_spec` and the output
/// row count equals the input row count.
pub fn compute_rsi(series: &Series, period: usize) -> (r: Result<RsiTable, IndicatorError>)
    requires
        series.wf(),
    ensures
        r is Ok <==> (series.price@.len() >= 2 && period >= 1),
        series.price@.len() < 2 ==> (r matches Err(e) && e matches IndicatorError::EmptySeriesError {
            rows,
        } && rows == series.price@.len()),
        series.price@.len() >= 2 && period < 1 ==> (r matches Err(e)
            && e matches IndicatorError::InvalidPeriod { period: p } && p == period),
        r matches Ok(out) ==> rsi_table_spec(series.time@, series.price@, period as int, out),
        r matches Ok(out) ==> forall|i: int|
            0 <= i < out.rsi@.len() ==> (#[trigger] out.rsi@[i]).den >= 1 && 0 <= out.rsi@[i].num
                <= 100 * out.rsi@[i].den,
{
    let n = series.price.len();
    if n < 2 {
        return Err(IndicatorError::EmptySeriesError { rows: n });
    }
    if period < 1 {
        return Err(IndicatorError::InvalidPeriod { period });
    }
    let ghost changes = Seq::new(series.price@.len(), |i: int| price_change_at(series.price@, i));
    let ghost gains = Seq::new(series.price@.len(), |i: int| gain_of(changes[i]));
    let ghost losses = Seq::new(series.price@.len(), |i: int| loss_of(changes[i]));

    let time = crate::copy_values(&series.time);
    let price = crate::copy_values(&series.price);
    let price_change = calculate_price_change(&series.price);
    let (gain, loss) = split_gain_loss(&price_change);

    proof {
        assert forall|k: int| 0 <= k < gains.len() implies int_view(gain@)[k] == gains[k] by {
            assert(price_change@[k] == price_change_at(series.price@, k));
        }
        assert(int_view(gain@) =~= gains);
        assert forall|k: int| 0 <= k < losses.len() implies int_view(loss@)[k] == losses[k] by {
            assert(price_change@[k] == price_change_at(series.price@, k));
        }
        assert(int_view(loss@) =~= losses);
    }

    let gain_avg = match period_rolling_mean(&gain, period) {
        Ok(v) => v,
        Err(e) => {
            return Err(e);
        },
    };
    let loss_avg = match period_rolling_mean(&loss, period) {
        Ok(v) => v,
        Err(e) => {
            return Err(e);
        },
    };

    proof {
        assert forall|k: int| 0 <= k < gain_avg@.len() implies avg_row_aligned(
            #[trigger] gain_avg@[k],
            loss_avg@[k],
        ) by {
            lemma_sum_range_nonneg(gains, window_lo(k, period as int), k + 1);
            lemma_sum_range_nonneg(losses, window_lo(k, period as int), k + 1);
        }
        assert(avgs_aligned(gain_avg@, loss_avg@));
    }

    let rs = calculate_final_rs(&gain_avg, &loss_avg);
    let rsi = calculate_final_rsi(&rs);
    let out = RsiTable { time, price, price_change, gain, loss, gain_avg, loss_avg, rs, rsi };

    proof {
        let period_i = period as int;
        assert forall|i: int| 0 <= i < series.price@.len() implies #[trigger] out.gain_avg@[i]
            == (Ratio {
            num: sum_range(gains, window_lo(i, period_i), i + 1) as i128,
            den: window_len(i, period_i) as i128,
        }) by {
            assert(out.gain_avg@[i].num == sum_range(gains, window_lo(i, period_i), i + 1));
            assert(out.gain_avg@[i].den == window_len(i, period_i));
        }
        assert forall|i: int| 0 <= i < series.price@.len() implies #[trigger] out.loss_avg@[i]
            == (Ratio {
            num: sum_range(losses, window_lo(i, period_i), i + 1) as i128,
            den: window_len(i, period_i) as i128,
        }) by {
            assert(out.loss_avg@[i].num == sum_range(losses, window_lo(i, period_i), i + 1));
            assert(out.loss_avg@[i].den == window_len(i, period_i));
        }
        assert forall|i: int| 0 <= i < series.price@.len() implies #[trigger] out.rs@[i] == rs_of(
            sum_range(gains, window_lo(i, period_i), i + 1),
            sum_range(losses, window_lo(i, period_i), i + 1),
        ) by {
            assert(out.rs@[i] == rs_of(gain_avg@[i].num as int, loss_avg@[i].num as int));
            assert(gain_avg@[i].num == sum_range(gains, window_lo(i, period_i), i + 1));
            assert(loss_avg@[i].num == sum_range(losses, window_lo(i, period_i), i + 1));
        }
        assert(rsi_table_spec(series.time@, series.price@, period as int, out));
    }
    Ok(out)
}

/// The configured close column of `table`, if present, holds only prices
/// within the fixed-point bound, so the pipeline's arithmetic cannot
/// overflow.
pub open spec fn close_column_bounded(table: Table, close_name: Seq<char>) -> bool {
    let ci = crate::table::first_match(table.columns@, close_name, 0);
    ci >= 0 ==> forall|i: int|
        0 <= i < table.columns@[ci].values@.len() ==> -PRICE_LIMIT
            <= #[trigger] table.columns@[ci].values@[i] <= PRICE_LIMIT
}

/// The computed indicator: the fully derived table and the period it was
/// computed with.
pub struct RelativeStrengthIndex {
    pub table: RsiTable,
    pub period: usize,
}

impl RelativeStrengthIndex {
    /// Run the whole pipeline on an input table: resolve the configured
    /// time and close columns, then derive price change, gain/loss, rolling
    /// averages, RS and RSI. Each error is terminal and names what failed:
    /// the first absent column, a row count below two, or a period below
    /// one.
    pub fn new(table: &Table, config: &ColumnConfig, period: usize) -> (r: Result<
        Self,
        IndicatorError,
    >)
        requires
            table.wf(),
            close_column_bounded(*table, config.close_name@),
        ensures
            ({
                let ti = crate::table::first_match(table.columns@, config.time_name@, 0);
                let ci = crate::table::first_match(table.columns@, config.close_name@, 0);
                match r {
                    Ok(v) => {
                        &&& ti >= 0
                        &&& ci >= 0
                        &&& table.spec_rows() >= 2
                        &&& period >= 1
                        &&& v.period == period
                        &&& rsi_table_spec(
                            table.columns@[ti].values@,
                            table.columns@[ci].values@,
                            period as int,
                            v.table,
                        )
                    },
                    Err(e) => {
                        &&& (ti < 0 || ci < 0 || table.spec_rows() < 2 || period < 1)
                        &&& (ti < 0 || ci < 0) ==> (e matches IndicatorError::SchemaError {
                            column,
                        } && column@ == (
                        if ti < 0 {
                            config.time_name@
                        } else {
                            config.close_name@
                        }))
                        &&& (ti >= 0 && ci >= 0 && table.spec_rows() < 2) ==> (
                        e matches IndicatorError::EmptySeriesError { rows } && rows
                            == table.spec_rows())
                        &&& (ti >= 0 && ci >= 0 && table.spec_rows() >= 2 && period < 1) ==> (
                        e matches IndicatorError::InvalidPeriod { period: p } && p == period)
                    },
                }
            }),
    {
        let series = match resolve_columns(table, config) {
            Ok(s) => s,
            Err(e) => {
                return Err(e);
            },
        };
        proof {
            let ci = crate::table::first_match(table.columns@, config.close_name@, 0);
            assert(table.columns@[ci].values@.len() == table.spec_rows());
            assert(series.price@.len() == table.spec_rows());
            assert(series.wf());
        }
        let out = match compute_rsi(&series, period) {
            Ok(t) => t,
            Err(e) => {
                return Err(e);
            },
        };
        Ok(RelativeStrengthIndex { table: out, period })
    }
}

} // verus!
