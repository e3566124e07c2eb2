//! The layout engine: rectangles of terminal cells and a percentage-based
//! horizontal split into adjacent, non-overlapping sub-rectangles.

use vstd::arithmetic::div_mod::{lemma_div_is_ordered, lemma_fundamental_div_mod};
use vstd::prelude::*;

verus! {

/// A rectangle of terminal cells.
#[derive(Clone, Copy, Debug, PartialEq, Eq, Structural)]
pub struct Rect {
    pub x: u16,
    pub y: u16,
    pub width: u16,
    pub height: u16,
}

/// The sum of a list of percentage weights.
pub open spec fn spec_weight_sum(s: Seq<u16>) -> int
    decreases s.len(),
{
    if s.len() == 0 {
        0
    } else {
        spec_weight_sum(s.drop_last()) + s.last()
    }
}

pub proof fn lemma_weight_sum_take_step(s: Seq<u16>, i: int)
    requires
        0 <= i < s.len(),
    ensures
        spec_weight_sum(s.take(i + 1)) == spec_weight_sum(s.take(i)) + s[i],
{
    assert(s.take(i + 1).drop_last() =~= s.take(i));
    assert(s.take(i + 1).last() == s[i]);
}

pub proof fn lemma_weight_sum_prefix(s: Seq<u16>, i: int)
    requires
        0 <= i <= s.len(),
    ensures
        spec_weight_sum(s.take(i)) <= spec_weight_sum(s),
    decreases s.len() - i,
{
    if i < s.len() {
        lemma_weight_sum_take_step(s, i);
        lemma_weight_sum_prefix(s, i + 1);
    } else {
        assert(s.take(i) =~= s);
    }
}

impl Rect {
    /// Both corners of the rectangle stay inside the terminal coordinate space.
    pub open spec fn well_formed(self) -> bool {
        self.x + self.width <= u16::MAX && self.y + self.height <= u16::MAX
    }

    pub fn left(&self) -> (r: u16)
        ensures
            r == self.x,
    {
        self.x
    }

    pub fn right(self) -> (r: u16)
        ensures
            r as int == if self.x + self.width <= u16::MAX {
                self.x + self.width
            } else {
                u16::MAX as int
            },
    {
        if self.width <= u16::MAX - self.x {
            self.x + self.width
        } else {
            u16::MAX
        }
    }

    pub fn top(self) -> (r: u16)
        ensures
            r == self.y,
    {
        self.y
    }

    pub fn bottom(&self) -> (r: u16)
        ensures
            r as int == if self.y + self.height <= u16::MAX {
                self.y + self.height
            } else {
                u16::MAX as int
            },
    {
        if self.height <= u16::MAX - self.y {
            self.y + self.height
        } else {
            u16::MAX
        }
    }

    /// Splits the rectangle left to right into one sub-rectangle per weight,
    /// each of width `floor(width * weight / 100)` and full height, adjacent
    /// and non-overlapping, starting at this rectangle's origin.
    pub fn horizontal_split_percentages(&self, pcts: &[u16]) -> (r: Vec<Rect>)
        requires
            self.well_formed(),
            spec_weight_sum(pcts@) <= 100,
        ensures
            r@.len() == pcts@.len(),
            forall|i: int|
                0 <= i < r@.len() ==> {
                    &&& (#[trigger] r@[i]).y == self.y
                    &&& r@[i].height == self.height
                    &&& r@[i].width == self.width * pcts@[i] / 100
                    &&& r@[i].well_formed()
                    &&& r@[i].x + r@[i].width <= self.x + self.width
                },
            r@.len() > 0 ==> r@[0].x == self.x,
            forall|i: int|
                1 <= i < r@.len() ==> #[trigger] r@[i].x == r@[i - 1].x + r@[i - 1].width,
    {
        let mut out: Vec<Rect> = Vec::new();
        let mut x_cur: u16 = self.x;
        let mut i: usize = 0;
        proof {
            assert(pcts@.take(0) =~= Seq::<u16>::empty());
        }
        while i < pcts.len()
            invariant
                0 <= i <= pcts@.len(),
                self.well_formed(),
                spec_weight_sum(pcts@) <= 100,
                out@.len() == i,
                self.x <= x_cur,
                100 * (x_cur - self.x) <= self.width * spec_weight_sum(pcts@.take(i as int)),
                spec_weight_sum(pcts@.take(i as int)) >= 0,
                x_cur <= self.x + self.width,
                forall|j: int|
                    0 <= j < i ==> {
                        &&& (#[trigger] out@[j]).y == self.y
                        &&& out@[j].height == self.height
                        &&& out@[j].width == self.width * pcts@[j] / 100
                        &&& out@[j].well_formed()
                        &&& out@[j].x + out@[j].width <= self.x + self.width
                    },
                i > 0 ==> out@[0].x == self.x,
                forall|j: int|
                    1 <= j < i ==> #[trigger] out@[j].x == out@[j - 1].x + out@[j - 1].width,
                i == 0 ==> x_cur == self.x,
                i > 0 ==> x_cur == out@[i - 1].x + out@[i - 1].width,
            decreases pcts@.len() - i,
        {
            let p: u16 = pcts[i];
            let ghost s_i = spec_weight_sum(pcts@.take(i as int));
            proof {
                lemma_weight_sum_take_step(pcts@, i as int);
                lemma_weight_sum_prefix(pcts@, i as int + 1);
                // the single weight is bounded by the total
                assert(s_i + p <= 100);
                assert(p <= 100);
                assert(self.width as int * (p as int) <= 6553500) by (nonlinear_arith)
                    requires
                        self.width as int <= 65535,
                        0 <= p as int <= 100,
                ;
            }
            let wp: u32 = self.width as u32 * p as u32;
            let w: u16 = (wp / 100) as u16;
            proof {
                lemma_fundamental_div_mod(wp as int, 100);
                lemma_div_is_ordered(wp as int, 6553500, 100);
                assert(100 * (w as int) <= wp as int);
                assert(100 * (x_cur - self.x + w as int) <= self.width * (s_i + p)
                    && x_cur - self.x + w as int <= self.width) by (nonlinear_arith)
                    requires
                        100 * (x_cur as int - self.x as int) <= self.width as int * s_i,
                        100 * (w as int) <= self.width as int * (p as int),
                        s_i + p as int <= 100,
                        s_i >= 0,
                        0 <= p as int,
                        self.width as int >= 0,
                        x_cur as int >= self.x as int,
                ;
            }
            let rect = Rect { x: x_cur, y: self.y, width: w, height: self.height };
            out.push(rect);
            x_cur = x_cur + w;
            i = i + 1;
        }
        proof {
            assert(pcts@.take(pcts@.len() as int) =~= pcts@);
        }
        out
    }
}

} // verus!
