use vstd::prelude::*;

use crate::ratio::{Ratio, RelativeStrength};
use crate::rsi::{
    gain_of, lemma_sum_range_pos, lemma_sum_range_zero, loss_of, price_change_at, rsi_table_spec,
    sum_range, window_lo, RsiTable,
};

verus! {

/// The pipeline is a pure function of its input: two outputs that satisfy
/// the pipeline specification for the same series and period are identical,
/// column by column. There is no hidden state, so running the pipeline
/// twice on one input yields one output.
pub proof fn lemma_pipeline_deterministic(
    time: Seq<i64>,
    price: Seq<i64>,
    period: int,
    out1: RsiTable,
    out2: RsiTable,
)
    requires
        rsi_table_spec(time, price, period, out1),
        rsi_table_spec(time, price, period, out2),
    ensures
        out1.time@ == out2.time@,
        out1.price@ == out2.price@,
        out1.price_change@ == out2.price_change@,
        out1.gain@ == out2.gain@,
        out1.loss@ == out2.loss@,
        out1.gain_avg@ == out2.gain_avg@,
        out1.loss_avg@ == out2.loss_avg@,
        out1.rs@ == out2.rs@,
        out1.rsi@ == out2.rsi@,
{
    assert(out1.price_change@ =~= out2.price_change@);
    assert(out1.gain@ =~= out2.gain@);
    assert(out1.loss@ =~= out2.loss@);
    assert(out1.gain_avg@ =~= out2.gain_avg@);
    assert(out1.loss_avg@ =~= out2.loss_avg@);
    assert(out1.rs@ =~= out2.rs@);
    assert(out1.rsi@ =~= out2.rsi@);
}

/// Degenerate window: with period 1 each rolling average is its source
/// value exactly, elementwise — `gain_avg[i] == gain[i] / 1` and
/// `loss_avg[i] == loss[i] / 1`.
pub proof fn lemma_unit_period_window(time: Seq<i64>, price: Seq<i64>, out: RsiTable)
    requires
        rsi_table_spec(time, price, 1, out),
    ensures
        forall|i: int|
            0 <= i < out.gain@.len() ==> #[trigger] out.gain_avg@[i] == (Ratio {
                num: out.gain@[i] as i128,
                den: 1,
            }),
        forall|i: int|
            0 <= i < out.loss@.len() ==> #[trigger] out.loss_avg@[i] == (Ratio {
                num: out.loss@[i] as i128,
                den: 1,
            }),
{
    let changes = Seq::new(price.len(), |i: int| price_change_at(price, i));
    let gains = Seq::new(price.len(), |i: int| gain_of(changes[i]));
    let losses = Seq::new(price.len(), |i: int| loss_of(changes[i]));
    assert forall|i: int| 0 <= i < out.gain@.len() implies #[trigger] out.gain_avg@[i] == (Ratio {
        num: out.gain@[i] as i128,
        den: 1,
    }) by {
        assert(window_lo(i, 1) == i);
        assert(sum_range(gains, i, i + 1) == sum_range(gains, i, i) + gains[i]);
        assert(sum_range(gains, i, i) == 0);
    }
    assert forall|i: int| 0 <= i < out.loss@.len() implies #[trigger] out.loss_avg@[i] == (Ratio {
        num: out.loss@[i] as i128,
        den: 1,
    }) by {
        assert(window_lo(i, 1) == i);
        assert(sum_range(losses, i, i + 1) == sum_range(losses, i, i) + losses[i]);
        assert(sum_range(losses, i, i) == 0);
    }
}

/// Flat series: when every price change is zero, the relative strength is
/// identically the finite zero ratio and RSI is identically zero.
pub proof fn lemma_flat_series(time: Seq<i64>, price: Seq<i64>, period: int, out: RsiTable)
    requires
        rsi_table_spec(time, price, period, out),
        forall|i: int| 0 <= i < out.price_change@.len() ==> #[trigger] out.price_change@[i] == 0,
    ensures
        forall|i: int|
            0 <= i < out.rs@.len() ==> #[trigger] out.rs@[i] == RelativeStrength::Finite(
                Ratio { num: 0, den: 1 },
            ),
        forall|i: int|
            0 <= i < out.rsi@.len() ==> #[trigger] out.rsi@[i] == (Ratio { num: 0, den: 1 }),
{
    let changes = Seq::new(price.len(), |i: int| price_change_at(price, i));
    let gains = Seq::new(price.len(), |i: int| gain_of(changes[i]));
    let losses = Seq::new(price.len(), |i: int| loss_of(changes[i]));
    assert forall|i: int| 0 <= i < out.rs@.len() implies #[trigger] out.rs@[i]
        == RelativeStrength::Finite(Ratio { num: 0, den: 1 }) by {
        assert forall|k: int| window_lo(i, period) <= k < i + 1 implies #[trigger] gains[k]
            == 0 by {
            assert(0 <= k < out.price_change@.len());
            assert(out.price_change@[k] == 0);
            assert(changes[k] == out.price_change@[k]);
        }
        assert forall|k: int| window_lo(i, period) <= k < i + 1 implies #[trigger] losses[k]
            == 0 by {
            assert(0 <= k < out.price_change@.len());
            assert(out.price_change@[k] == 0);
            assert(changes[k] == out.price_change@[k]);
        }
        lemma_sum_range_zero(gains, window_lo(i, period), i + 1);
        lemma_sum_range_zero(losses, window_lo(i, period), i + 1);
    }
}

/// Zero-loss window: when the window ending at row `i` holds no downward
/// move and at least one upward move, the relative strength is the
/// maximum-strength sentinel and RSI is exactly 100 — not an error, despite
/// the zero average loss.
pub proof fn lemma_zero_loss_window(
    time: Seq<i64>,
    price: Seq<i64>,
    period: int,
    out: RsiTable,
    i: int,
    witness: int,
)
    requires
        rsi_table_spec(time, price, period, out),
        0 <= i < out.price_change@.len(),
        forall|k: int| window_lo(i, period) <= k <= i ==> #[trigger] out.price_change@[k] >= 0,
        window_lo(i, period) <= witness <= i,
        out.price_change@[witness] > 0,
    ensures
        out.rs@[i] == RelativeStrength::MaxStrength,
        out.rsi@[i] == (Ratio { num: 100, den: 1 }),
{
    let changes = Seq::new(price.len(), |j: int| price_change_at(price, j));
    let gains = Seq::new(price.len(), |j: int| gain_of(changes[j]));
    let losses = Seq::new(price.len(), |j: int| loss_of(changes[j]));
    assert forall|k: int| window_lo(i, period) <= k < i + 1 implies #[trigger] gains[k] >= 0 by {
        assert(0 <= k < out.price_change@.len());
        assert(out.price_change@[k] >= 0);
        assert(changes[k] == out.price_change@[k]);
    }
    assert forall|k: int| window_lo(i, period) <= k < i + 1 implies #[trigger] losses[k] == 0 by {
        assert(0 <= k < out.price_change@.len());
        assert(out.price_change@[k] >= 0);
        assert(changes[k] == out.price_change@[k]);
    }
    assert(changes[witness] == out.price_change@[witness]);
    assert(gains[witness] > 0);
    lemma_sum_range_zero(losses, window_lo(i, period), i + 1);
    lemma_sum_range_pos(gains, window_lo(i, period), i + 1, witness);
}

/// A finite relative strength is exactly the quotient of the two rolling
/// averages it came from: for averages `g.num / g.den` and `l.num / l.den`
/// over one shared window (`g.den == l.den`), the quotient
/// `(g.num * l.den) / (g.den * l.num)` and the stored ratio
/// `g.num / l.num` denote the same rational — the window length cancels.
pub proof fn lemma_rs_is_average_quotient(g: Ratio, l: Ratio)
    requires
        g.den == l.den,
        g.den >= 1,
        l.num >= 1,
    ensures
        g.num * (g.den * l.num) == (g.num * l.den) * l.num,
{
    assert(g.num * (g.den * l.num) == (g.num * l.den) * l.num) by (nonlinear_arith)
        requires
            g.den == l.den,
    ;
}

} // verus!
