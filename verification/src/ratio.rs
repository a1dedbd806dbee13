use vstd::prelude::*;

verus! {

/// An exact rational value `num / den`; the pipeline only ever produces
/// ratios with `den >= 1`.
///
/// Fractions are never reduced: a rolling average over a window of `w` rows
/// is stored as (sum, w), so every derived value is an exact rational with
/// a documented representation.
#[derive(Clone, Copy, Debug, PartialEq, Eq, Structural)]
pub struct Ratio {
    pub num: i128,
    pub den: i128,
}

/// Relative strength: the ratio of average gain to average loss, or the
/// "maximum strength" sentinel used when the average loss is zero while the
/// average gain is positive (conceptually +infinity).
#[derive(Clone, Copy, Debug, PartialEq, Eq, Structural)]
pub enum RelativeStrength {
    Finite(Ratio),
    MaxStrength,
}

} // verus!
