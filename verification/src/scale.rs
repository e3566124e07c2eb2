//! The axis scaler: a clamped linear range map for bar heights and the
//! monotone envelope of axis bounds that never shrinks between frames.

use crate::datapoint::{Datapoint, BAR_CHART_RED_START};
use vstd::arithmetic::div_mod::{
    lemma_div_is_ordered, lemma_div_pos_is_pos, lemma_multiply_divide_le,
};
use vstd::arithmetic::mul::{lemma_mul_inequality, lemma_mul_nonnegative};
use vstd::prelude::*;

verus! {

/// The default ceiling of the drawing bounds: a fixed multiple of the red
/// threshold, so the chart keeps a usable scale while all samples are small.
pub const DEFAULT_AXIS_MAX: u64 = BAR_CHART_RED_START * 5 / 4;

/// Maps `value` from the range `old_min..old_max` linearly into the range
/// `new_min..new_max`, rounding down; values outside the source range clamp
/// to the nearest end of the target range.
pub open spec fn spec_map_range(
    value: int,
    old_min: int,
    old_max: int,
    new_min: int,
    new_max: int,
) -> int {
    if value <= old_min {
        new_min
    } else if value >= old_max {
        new_max
    } else {
        new_min + (value - old_min) * (new_max - new_min) / (old_max - old_min)
    }
}

/// The scaled value always lands inside the target range, and inputs at or
/// beyond the source range land exactly on its ends.
pub proof fn lemma_map_range_bounds(
    value: int,
    old_min: int,
    old_max: int,
    new_min: int,
    new_max: int,
)
    requires
        old_min < old_max,
        new_min <= new_max,
    ensures
        new_min <= spec_map_range(value, old_min, old_max, new_min, new_max) <= new_max,
        value <= old_min ==> spec_map_range(value, old_min, old_max, new_min, new_max) == new_min,
        value >= old_max ==> spec_map_range(value, old_min, old_max, new_min, new_max) == new_max,
{
    if old_min < value < old_max {
        let a = value - old_min;
        let k = new_max - new_min;
        let m = old_max - old_min;
        lemma_mul_nonnegative(a, k);
        lemma_div_pos_is_pos(a * k, m);
        lemma_mul_inequality(a, m, k);
        lemma_multiply_divide_le(a * k, m, k);
    }
}

/// Within and around the source range the mapping is monotone: a larger
/// input never yields a smaller scaled value.
pub proof fn lemma_map_range_monotonic(
    v1: int,
    v2: int,
    old_min: int,
    old_max: int,
    new_min: int,
    new_max: int,
)
    requires
        old_min < old_max,
        new_min <= new_max,
        v1 <= v2,
    ensures
        spec_map_range(v1, old_min, old_max, new_min, new_max) <= spec_map_range(
            v2,
            old_min,
            old_max,
            new_min,
            new_max,
        ),
{
    lemma_map_range_bounds(v1, old_min, old_max, new_min, new_max);
    lemma_map_range_bounds(v2, old_min, old_max, new_min, new_max);
    if old_min < v1 < old_max && old_min < v2 < old_max {
        let k = new_max - new_min;
        let m = old_max - old_min;
        lemma_mul_inequality(v1 - old_min, v2 - old_min, k);
        lemma_div_is_ordered((v1 - old_min) * k, (v2 - old_min) * k, m);
    }
}

/// Executable clamped linear range map.
pub fn map_range(value: u64, old_min: u64, old_max: u64, new_min: u64, new_max: u64) -> (r: u64)
    requires
        old_min < old_max,
        new_min <= new_max,
    ensures
        r as int == spec_map_range(
            value as int,
            old_min as int,
            old_max as int,
            new_min as int,
            new_max as int,
        ),
        new_min <= r <= new_max,
{
    proof {
        lemma_map_range_bounds(
            value as int,
            old_min as int,
            old_max as int,
            new_min as int,
            new_max as int,
        );
    }
    if value <= old_min {
        new_min
    } else if value >= old_max {
        new_max
    } else {
        let a: u64 = value - old_min;
        let k: u64 = new_max - new_min;
        proof {
            assert(a as int * k as int <= u128::MAX as int) by (nonlinear_arith)
                requires
                    0 <= a as int,
                    a as int <= u64::MAX as int,
                    0 <= k as int,
                    k as int <= u64::MAX as int,
            ;
        }
        let num: u128 = a as u128 * k as u128;
        let den: u128 = (old_max - old_min) as u128;
        let q: u128 = num / den;
        proof {
            lemma_mul_nonnegative(a as int, k as int);
        }
        new_min + (q as u64)
    }
}

/// The drawing bounds and the all-time extrema of the chart axis.
#[derive(Clone, Copy, Debug, PartialEq, Eq, Structural)]
pub struct BarChartMetaData {
    /// Ceiling of the drawing bounds; only ever grows.
    pub max_bar_value: u64,
    /// Floor of the drawing bounds; only ever shrinks.
    pub min_bar_value: u64,
    /// Largest non-failed value ever observed, for display text.
    pub max_seen_value: Option<u64>,
    /// Smallest non-failed value ever observed, for display text.
    pub min_seen_value: Option<u64>,
}

impl BarChartMetaData {
    /// The drawing bounds always leave room for a non-degenerate scale.
    pub open spec fn well_formed(self) -> bool {
        self.min_bar_value < self.max_bar_value
    }

    /// The state every dashboard session starts from.
    pub open spec fn spec_initial() -> BarChartMetaData {
        BarChartMetaData {
            max_bar_value: DEFAULT_AXIS_MAX,
            min_bar_value: 0,
            max_seen_value: None,
            min_seen_value: None,
        }
    }
}

/// The largest non-failed value of a window, if any.
pub open spec fn spec_batch_max(s: Seq<Datapoint>) -> Option<u64>
    decreases s.len(),
{
    if s.len() == 0 {
        None
    } else {
        let rest = spec_batch_max(s.drop_last());
        let d = s.last();
        if d.failed {
            rest
        } else if rest is Some && rest->0 >= d.value {
            rest
        } else {
            Some(d.value)
        }
    }
}

/// The smallest non-failed value of a window, if any.
pub open spec fn spec_batch_min(s: Seq<Datapoint>) -> Option<u64>
    decreases s.len(),
{
    if s.len() == 0 {
        None
    } else {
        let rest = spec_batch_min(s.drop_last());
        let d = s.last();
        if d.failed {
            rest
        } else if rest is Some && rest->0 <= d.value {
            rest
        } else {
            Some(d.value)
        }
    }
}

/// One axis update: the drawing bounds absorb the batch extrema where those
/// exceed them, the all-time extrema absorb them where they are new records,
/// and a window with no non-failed value changes nothing.
pub open spec fn spec_update_meta(m: BarChartMetaData, s: Seq<Datapoint>) -> BarChartMetaData {
    let bmax = spec_batch_max(s);
    let bmin = spec_batch_min(s);
    BarChartMetaData {
        max_bar_value: if bmax is Some && bmax->0 > m.max_bar_value {
            bmax->0
        } else {
            m.max_bar_value
        },
        min_bar_value: if bmin is Some && bmin->0 < m.min_bar_value {
            bmin->0
        } else {
            m.min_bar_value
        },
        max_seen_value: if bmax is Some && (m.max_seen_value is None || bmax->0
            > m.max_seen_value->0) {
            bmax
        } else {
            m.max_seen_value
        },
        min_seen_value: if bmin is Some && (m.min_seen_value is None || bmin->0
            < m.min_seen_value->0) {
            bmin
        } else {
            m.min_seen_value
        },
    }
}

/// The monotone envelope law: an update never lowers the axis ceiling and
/// never raises the axis floor, and it preserves well-formedness.
pub proof fn lemma_axis_envelope_monotone(m: BarChartMetaData, s: Seq<Datapoint>)
    ensures
        spec_update_meta(m, s).max_bar_value >= m.max_bar_value,
        spec_update_meta(m, s).min_bar_value <= m.min_bar_value,
        m.well_formed() ==> spec_update_meta(m, s).well_formed(),
{
}

/// Computes the batch extrema of the non-failed values of `datapoints` and
/// folds them into the axis state.
pub fn calc_bar_chart_metadata(bcmd: &mut BarChartMetaData, datapoints: &Vec<Datapoint>)
    ensures
        *final(bcmd) == spec_update_meta(*old(bcmd), datapoints@),
        final(bcmd).max_bar_value >= old(bcmd).max_bar_value,
        final(bcmd).min_bar_value <= old(bcmd).min_bar_value,
        old(bcmd).well_formed() ==> final(bcmd).well_formed(),
{
    let mut cur_max: Option<u64> = None;
    let mut cur_min: Option<u64> = None;
    let mut i: usize = 0;
    proof {
        assert(datapoints@.take(0) =~= Seq::<Datapoint>::empty());
    }
    while i < datapoints.len()
        invariant
            0 <= i <= datapoints@.len(),
            cur_max == spec_batch_max(datapoints@.take(i as int)),
            cur_min == spec_batch_min(datapoints@.take(i as int)),
        decreases datapoints@.len() - i,
    {
        let d = datapoints[i];
        match cur_max {
            Some(m) => {
                if !d.failed && d.value > m {
                    cur_max = Some(d.value);
                }
            },
            None => {
                if !d.failed {
                    cur_max = Some(d.value);
                }
            },
        }
        match cur_min {
            Some(m) => {
                if !d.failed && d.value < m {
                    cur_min = Some(d.value);
                }
            },
            None => {
                if !d.failed {
                    cur_min = Some(d.value);
                }
            },
        }
        proof {
            assert(datapoints@.take(i as int + 1).drop_last() =~= datapoints@.take(i as int));
            assert(datapoints@.take(i as int + 1).last() == datapoints@[i as int]);
        }
        i = i + 1;
    }
    proof {
        assert(datapoints@.take(datapoints@.len() as int) =~= datapoints@);
    }
    match cur_max {
        Some(m) => {
            if m > bcmd.max_bar_value {
                bcmd.max_bar_value = m;
            }
            match bcmd.max_seen_value {
                Some(seen) => {
                    if m > seen {
                        bcmd.max_seen_value = Some(m);
                    }
                },
                None => {
                    bcmd.max_seen_value = Some(m);
                },
            }
        },
        None => {},
    }
    match cur_min {
        Some(m) => {
            if m < bcmd.min_bar_value {
                bcmd.min_bar_value = m;
            }
            match bcmd.min_seen_value {
                Some(seen) => {
                    if m < seen {
                        bcmd.min_seen_value = Some(m);
                    }
                },
                None => {
                    bcmd.min_seen_value = Some(m);
                },
            }
        },
        None => {},
    }
}

} // verus!
