//! The summary panel renderer: the running all-time extrema and a scrolling
//! list of the most recent measurements with their timestamps and values.

use crate::datapoint::{spec_color, spec_value_text, timestamp_text_of, Datapoint};
use crate::geometry::Rect;
use crate::paint::{ops_view, PaintOp, ScreenOp, TermColor};
use crate::scale::BarChartMetaData;
use crate::text::{spec_decimal, u64_to_string};
use vstd::arithmetic::div_mod::lemma_fundamental_div_mod;
use vstd::prelude::*;
use vstd::string::StringExecFns;

verus! {

/// Rows one history entry occupies.
pub const ITEM_HEIGHT: u16 = 2;

/// Blank rows between history entries.
pub const ITEM_GAP: u16 = 1;

/// Rows reserved at the panel's top for the extrema lines.
pub const INFO_HEIGHT: u16 = 3;

/// The text for a recorded extremum: the value with its unit, or `"none"`
/// while no non-failed sample has ever been observed.
pub open spec fn spec_extremum_text(v: Option<u64>) -> Seq<char> {
    match v {
        Some(x) => spec_decimal(x as int) + " ms"@,
        None => "none"@,
    }
}

/// How many history entries fit below the extrema lines.
pub open spec fn spec_info_items(len: int, area: Rect) -> int {
    let cap = if area.height >= INFO_HEIGHT {
        (area.height - INFO_HEIGHT) / ((ITEM_HEIGHT + ITEM_GAP) as int)
    } else {
        0
    };
    if len <= cap {
        len
    } else {
        cap
    }
}

/// The operations of one history entry in slot `k`: the timestamp line in
/// the default color, then the value line in its severity color.
pub open spec fn spec_info_entry_ops(d: Datapoint, k: int, area: Rect) -> Seq<ScreenOp> {
    let y = area.y + INFO_HEIGHT + k * ((ITEM_HEIGHT + ITEM_GAP) as int);
    seq![
        ScreenOp::Move(area.x as int, y),
        ScreenOp::Fg(TermColor::Reset),
        ScreenOp::Text(timestamp_text_of(d.timestamp as int)),
        ScreenOp::Move(area.x as int, y + 1),
        ScreenOp::Fg(spec_color(d.value, d.failed)),
        ScreenOp::Text(spec_value_text(d.value, d.failed)),
    ]
}

/// The first `i` history entries, most recent first, top to bottom.
pub open spec fn spec_info_entries_upto(window: Seq<Datapoint>, area: Rect, i: int) -> Seq<
    ScreenOp,
>
    decreases i,
{
    if i <= 0 {
        Seq::empty()
    } else {
        spec_info_entries_upto(window, area, i - 1) + spec_info_entry_ops(
            window[i - 1],
            i - 1,
            area,
        )
    }
}

/// Every operation of one summary panel repaint: nothing for a degenerate
/// area, else the all-time extrema lines followed by as many of the most
/// recent measurements as fit.
pub open spec fn spec_summary_ops(
    meta: BarChartMetaData,
    window: Seq<Datapoint>,
    area: Rect,
) -> Seq<ScreenOp> {
    if area.width == 0 || area.height == 0 {
        Seq::empty()
    } else {
        let n = spec_info_items(window.len() as int, area);
        seq![
            ScreenOp::Fg(TermColor::Reset),
            ScreenOp::Move(area.x as int, area.y as int),
            ScreenOp::Text("Max: "@ + spec_extremum_text(meta.max_seen_value)),
            ScreenOp::Move(area.x as int, area.y + 1),
            ScreenOp::Text("Min: "@ + spec_extremum_text(meta.min_seen_value)),
        ] + spec_info_entries_upto(window, area, n)
    }
}

/// Renders an extremum for the panel's header lines.
fn extremum_str(v: &Option<u64>) -> (r: String)
    ensures
        r@ == spec_extremum_text(*v),
{
    match v {
        Some(x) => u64_to_string(*x).concat(" ms"),
        None => "none".to_owned(),
    }
}

/// Renders the summary panel for `area`: the running extrema and the most
/// recent measurements, exactly as `spec_summary_ops` describes. A
/// degenerate area renders nothing.
pub fn draw_data_info(window: &Vec<Datapoint>, meta: &BarChartMetaData, area: Rect) -> (r: Vec<
    PaintOp,
>)
    requires
        area.well_formed(),
    ensures
        ops_view(r@) == spec_summary_ops(*meta, window@, area),
{
    let mut ops: Vec<PaintOp> = Vec::new();
    if area.width == 0 || area.height == 0 {
        proof {
            assert(ops_view(ops@) =~= spec_summary_ops(*meta, window@, area));
        }
        return ops;
    }
    ops.push(PaintOp::SetForeground(TermColor::Reset));
    ops.push(PaintOp::MoveTo(area.x, area.y));
    let max_text = extremum_str(&meta.max_seen_value);
    ops.push(PaintOp::Print("Max: ".to_owned().concat(max_text.as_str())));
    ops.push(PaintOp::MoveTo(area.x, area.y + 1));
    let min_text = extremum_str(&meta.min_seen_value);
    ops.push(PaintOp::Print("Min: ".to_owned().concat(min_text.as_str())));
    let ghost head = ops_view(ops@);
    proof {
        assert(head =~= spec_summary_ops(*meta, window@, area).take(5));
    }
    let cap_rows: u16 = if area.height >= INFO_HEIGHT {
        (area.height - INFO_HEIGHT) / (ITEM_HEIGHT + ITEM_GAP)
    } else {
        0
    };
    let cap: usize = cap_rows as usize;
    let n: usize = if window.len() <= cap {
        window.len()
    } else {
        cap
    };
    proof {
        assert((ITEM_HEIGHT + ITEM_GAP) as int == 3);
        assert(n as int == spec_info_items(window@.len() as int, area));
        if area.height >= INFO_HEIGHT {
            lemma_fundamental_div_mod((area.height - INFO_HEIGHT) as int, 3);
        }
        assert(3 * (cap_rows as int) <= area.height - INFO_HEIGHT || cap_rows == 0);
    }
    let mut i: usize = 0;
    while i < n
        invariant
            i <= n,
            n <= window@.len(),
            n <= cap_rows as usize,
            cap_rows == 0 || 3 * (cap_rows as int) <= area.height - INFO_HEIGHT,
            area.well_formed(),
            area.width >= 1,
            area.height >= 1,
            ops_view(ops@) == head + spec_info_entries_upto(window@, area, i as int),
        decreases n - i,
    {
        let d = window[i];
        proof {
            assert((ITEM_HEIGHT + ITEM_GAP) as int == 3);
            assert((i as int) * ((ITEM_HEIGHT + ITEM_GAP) as int) == 3 * (i as int))
                by (nonlinear_arith)
                requires
                    (ITEM_HEIGHT + ITEM_GAP) as int == 3,
            ;
            assert(3 * (i as int) + INFO_HEIGHT + 1 <= area.height);
        }
        let y_row: u16 = area.y + INFO_HEIGHT + (i as u16) * (ITEM_HEIGHT + ITEM_GAP);
        let ghost prev = ops@;
        ops.push(PaintOp::MoveTo(area.x, y_row));
        ops.push(PaintOp::SetForeground(TermColor::Reset));
        ops.push(PaintOp::Print(d.time_str()));
        ops.push(PaintOp::MoveTo(area.x, y_row + 1));
        ops.push(PaintOp::SetForeground(d.color()));
        ops.push(PaintOp::Print(d.value_str()));
        proof {
            assert(y_row as int == area.y + INFO_HEIGHT + (i as int) * ((ITEM_HEIGHT + ITEM_GAP)
                as int));
            assert(ops_view(ops@) =~~= ops_view(prev) + spec_info_entry_ops(d, i as int, area));
            assert(ops_view(ops@) =~~= head + spec_info_entries_upto(
                window@,
                area,
                i as int + 1,
            ));
        }
        i = i + 1;
    }
    proof {
        assert(ops_view(ops@) =~~= spec_summary_ops(*meta, window@, area));
    }
    ops
}

} // verus!
