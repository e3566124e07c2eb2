//! The bar chart renderer: turns the shown slice of the window plus the
//! current axis bounds into an ordered sequence of paint operations, using
//! 8-level sub-character vertical quantization, severity coloring, threshold
//! gridlines and a top rule with the axis ceiling.

use crate::datapoint::{
    spec_color, Datapoint, BAR_CHART_RED_START, BAR_CHART_YELLOW_START,
};
use crate::geometry::Rect;
use crate::paint::{ops_view, PaintOp, ScreenOp, TermColor};
use crate::scale::{map_range, spec_map_range, BarChartMetaData};
use crate::text::{repeat_str, spec_decimal, spec_repeat, u64_to_string};
use vstd::arithmetic::div_mod::lemma_fundamental_div_mod;
use vstd::prelude::*;
use vstd::string::StringExecFns;

verus! {

/// Width of one bar, in cells.
pub const BAR_WIDTH: u16 = 1;

/// Gap between adjacent bars, in cells.
pub const BAR_GAP: u16 = 1;

/// Eighths of a cell filled at row `j` (counted up from the chart's bottom
/// row) by a bar of `scaled` total eighths.
pub open spec fn spec_eighths_at(scaled: int, j: int) -> int {
    if scaled >= 8 * (j + 1) {
        8
    } else if scaled > 8 * j {
        scaled - 8 * j
    } else {
        0
    }
}

/// Total filled eighths over the `rows` bottom-most rows.
pub open spec fn spec_filled_sum(scaled: int, rows: int) -> int
    decreases rows,
{
    if rows <= 0 {
        0
    } else {
        spec_filled_sum(scaled, rows - 1) + spec_eighths_at(scaled, rows - 1)
    }
}

proof fn lemma_filled_sum_value(scaled: int, rows: int)
    requires
        0 <= scaled,
        0 <= rows,
    ensures
        spec_filled_sum(scaled, rows) == if scaled <= 8 * rows {
            scaled
        } else {
            8 * rows
        },
    decreases rows,
{
    if rows > 0 {
        lemma_filled_sum_value(scaled, rows - 1);
    }
}

/// Sub-character quantization round-trips: splitting a scaled height into
/// full cells and a remainder of eighths loses nothing, and the column of
/// graded glyphs drawn for it fills exactly `scaled` eighths in total.
pub proof fn lemma_quantization_round_trip(scaled: int, rows: int)
    requires
        0 <= scaled <= 8 * rows,
    ensures
        8 * (scaled / 8) + scaled % 8 == scaled,
        spec_filled_sum(scaled, rows) == scaled,
{
    lemma_fundamental_div_mod(scaled, 8);
    lemma_filled_sum_value(scaled, rows);
}

/// Rows at or above a bar's drawn cell count hold no filled eighths, so the
/// drawn cells carry the bar's whole scaled height.
pub proof fn lemma_cells_cover_filled_rows(scaled: int, j: int)
    requires
        0 <= scaled,
        spec_cell_count(scaled) <= j,
    ensures
        spec_eighths_at(scaled, j) == 0,
{
    lemma_fundamental_div_mod(scaled, 8);
}

/// The glyph for a cell filled to `e` eighths: blank through full block.
pub open spec fn spec_glyph(e: int) -> Seq<char> {
    if e <= 0 {
        " "@
    } else if e == 1 {
        "▁"@
    } else if e == 2 {
        "▂"@
    } else if e == 3 {
        "▃"@
    } else if e == 4 {
        "▄"@
    } else if e == 5 {
        "▅"@
    } else if e == 6 {
        "▆"@
    } else if e == 7 {
        "▇"@
    } else {
        "█"@
    }
}

/// How many cells a bar of `scaled` eighths paints: its full cells, one
/// partial cell if a remainder is left, and a single blank cell for visual
/// presence when the bar is empty.
pub open spec fn spec_cell_count(scaled: int) -> int {
    if scaled % 8 > 0 {
        scaled / 8 + 1
    } else if scaled / 8 == 0 {
        1
    } else {
        scaled / 8
    }
}

/// The paint operations of one bar column, drawn bottom-up: a cursor move
/// and a graded glyph for each of the first `n` cells.
pub open spec fn spec_bar_cells(x: int, area: Rect, scaled: int, n: int) -> Seq<ScreenOp>
    decreases n,
{
    if n <= 0 {
        Seq::empty()
    } else {
        spec_bar_cells(x, area, scaled, n - 1) + seq![
            ScreenOp::Move(x, area.y + area.height - n),
            ScreenOp::Text(spec_glyph(spec_eighths_at(scaled, n - 1))),
        ]
    }
}

/// The operations for the bar of one datapoint in column `c`: its severity
/// color, then either the failure marker at the baseline or its quantized
/// cells.
pub open spec fn spec_bar_ops(d: Datapoint, c: int, area: Rect, min: int, max: int) -> Seq<
    ScreenOp,
> {
    let x = area.x + c * ((BAR_WIDTH + BAR_GAP) as int);
    seq![ScreenOp::Fg(spec_color(d.value, d.failed))] + if d.failed {
        seq![ScreenOp::Move(x, area.y + area.height - 1), ScreenOp::Text("X"@)]
    } else {
        let scaled = spec_map_range(d.value as int, min, max, 0, 8 * area.height);
        spec_bar_cells(x, area, scaled, spec_cell_count(scaled))
    }
}

/// The operations of the first `i` bar columns. Column `c` shows the
/// `n - 1 - c`-th most recent of the `n` shown datapoints, so the bars run
/// oldest to newest left to right and the most recent bar is rightmost.
pub open spec fn spec_bars_upto(
    shown: Seq<Datapoint>,
    area: Rect,
    min: int,
    max: int,
    i: int,
) -> Seq<ScreenOp>
    decreases i,
{
    if i <= 0 {
        Seq::empty()
    } else {
        spec_bars_upto(shown, area, min, max, i - 1) + spec_bar_ops(
            shown[shown.len() - i],
            i - 1,
            area,
            min,
            max,
        )
    }
}

/// The dotted rule and label of one horizontal threshold gridline.
pub open spec fn spec_threshold_ops(t: u64, area: Rect, min: int, max: int) -> Seq<ScreenOp> {
    let scaled = spec_map_range(t as int, min, max, 0, 8 * area.height);
    let rule_row = area.y + area.height - (scaled + 7) / 8;
    let label_row = if rule_row > area.y {
        rule_row - 1
    } else {
        area.y as int
    };
    seq![
        ScreenOp::Move(area.x as int, rule_row),
        ScreenOp::Text(spec_repeat("⠁"@, area.width - 1)),
        ScreenOp::Move(area.x as int, label_row),
        ScreenOp::Text(spec_decimal(t as int) + " ms"@),
    ]
}

/// The rule and label showing the current axis ceiling at the chart's top.
pub open spec fn spec_top_rule_ops(area: Rect, max: int) -> Seq<ScreenOp> {
    seq![
        ScreenOp::Move(area.x as int, area.y as int),
        ScreenOp::Text(spec_repeat("⡀"@, area.width - 1)),
        ScreenOp::Move(area.x as int, area.y + 1),
        ScreenOp::Text(spec_decimal(max) + "+ ms"@),
    ]
}

/// How many of the most recent datapoints fit the area's width.
pub open spec fn spec_num_items(len: int, area: Rect) -> int {
    let cap = area.width as int / ((BAR_WIDTH + BAR_GAP) as int);
    if len <= cap {
        len
    } else {
        cap
    }
}

/// Every operation of one bar chart repaint: nothing for a degenerate area,
/// else the grey gridlines followed by one bar per shown datapoint.
pub open spec fn spec_chart_ops(
    window: Seq<Datapoint>,
    meta: BarChartMetaData,
    area: Rect,
) -> Seq<ScreenOp> {
    if area.width == 0 || area.height == 0 {
        Seq::empty()
    } else {
        let min = meta.min_bar_value as int;
        let max = meta.max_bar_value as int;
        let n = spec_num_items(window.len() as int, area);
        seq![ScreenOp::Fg(TermColor::Grey)] + spec_threshold_ops(
            BAR_CHART_YELLOW_START,
            area,
            min,
            max,
        ) + spec_threshold_ops(BAR_CHART_RED_START, area, min, max) + spec_top_rule_ops(area, max)
            + spec_bars_upto(window.take(n), area, min, max, n)
    }
}

/// Executable counterpart of `spec_eighths_at`.
pub fn eighths_at(scaled: u64, j: u16) -> (r: u64)
    ensures
        r as int == spec_eighths_at(scaled as int, j as int),
        r <= 8,
{
    let j8: u64 = 8 * (j as u64);
    if scaled >= j8 + 8 {
        8
    } else if scaled > j8 {
        scaled - j8
    } else {
        0
    }
}

/// Executable counterpart of `spec_glyph`.
pub fn glyph_str(e: u64) -> (r: &'static str)
    ensures
        r@ == spec_glyph(e as int),
{
    if e == 0 {
        " "
    } else if e == 1 {
        "▁"
    } else if e == 2 {
        "▂"
    } else if e == 3 {
        "▃"
    } else if e == 4 {
        "▄"
    } else if e == 5 {
        "▅"
    } else if e == 6 {
        "▆"
    } else if e == 7 {
        "▇"
    } else {
        "█"
    }
}

/// Executable counterpart of `spec_cell_count`.
pub fn cell_count(scaled: u64) -> (r: u64)
    ensures
        r as int == spec_cell_count(scaled as int),
        r >= 1,
{
    let w: u64 = scaled / 8;
    let rem: u64 = scaled % 8;
    if rem > 0 {
        w + 1
    } else if w == 0 {
        1
    } else {
        w
    }
}

/// Builds the first `cells` cells of one bar column, bottom-up.
fn bar_cell_ops(x: u16, area: Rect, scaled: u64, cells: u64) -> (r: Vec<PaintOp>)
    requires
        area.well_formed(),
        cells as int <= area.height as int,
    ensures
        ops_view(r@) == spec_bar_cells(x as int, area, scaled as int, cells as int),
{
    let mut ops: Vec<PaintOp> = Vec::new();
    proof {
        assert(ops_view(ops@) =~= spec_bar_cells(x as int, area, scaled as int, 0));
    }
    let mut n: u64 = 0;
    while n < cells
        invariant
            n <= cells,
            cells as int <= area.height as int,
            area.well_formed(),
            ops_view(ops@) == spec_bar_cells(x as int, area, scaled as int, n as int),
        decreases cells - n,
    {
        let e = eighths_at(scaled, n as u16);
        let y: u16 = area.y + area.height - 1 - (n as u16);
        let g = glyph_str(e);
        ops.push(PaintOp::MoveTo(x, y));
        ops.push(PaintOp::Print(g.to_owned()));
        proof {
            assert(ops_view(ops@) =~= spec_bar_cells(x as int, area, scaled as int, n as int + 1));
        }
        n = n + 1;
    }
    ops
}

/// Builds one threshold gridline: a dotted rule at the threshold's height and
/// its numeric label one row above.
fn threshold_ops(t: u64, area: Rect, min: u64, max: u64) -> (r: Vec<PaintOp>)
    requires
        min < max,
        area.well_formed(),
        area.width >= 1,
        area.height >= 1,
    ensures
        ops_view(r@) == spec_threshold_ops(t, area, min as int, max as int),
{
    let virtual_height: u64 = 8 * (area.height as u64);
    let scaled = map_range(t, min, max, 0, virtual_height);
    proof {
        lemma_fundamental_div_mod(scaled as int + 7, 8);
    }
    let g: u64 = (scaled + 7) / 8;
    let rule_row: u16 = area.y + area.height - (g as u16);
    let label_row: u16 = if rule_row > area.y {
        rule_row - 1
    } else {
        area.y
    };
    let mut ops: Vec<PaintOp> = Vec::new();
    ops.push(PaintOp::MoveTo(area.x, rule_row));
    ops.push(PaintOp::Print(repeat_str("⠁", area.width - 1)));
    ops.push(PaintOp::MoveTo(area.x, label_row));
    ops.push(PaintOp::Print(u64_to_string(t).concat(" ms")));
    proof {
        assert(ops_view(ops@) =~= spec_threshold_ops(t, area, min as int, max as int));
    }
    ops
}

/// Builds the top rule and the axis ceiling label.
fn top_rule_ops(area: Rect, max: u64) -> (r: Vec<PaintOp>)
    requires
        area.well_formed(),
        area.width >= 1,
        area.height >= 1,
    ensures
        ops_view(r@) == spec_top_rule_ops(area, max as int),
{
    let mut ops: Vec<PaintOp> = Vec::new();
    ops.push(PaintOp::MoveTo(area.x, area.y));
    ops.push(PaintOp::Print(repeat_str("⡀", area.width - 1)));
    ops.push(PaintOp::MoveTo(area.x, area.y + 1));
    ops.push(PaintOp::Print(u64_to_string(max).concat("+ ms")));
    proof {
        assert(ops_view(ops@) =~= spec_top_rule_ops(area, max as int));
    }
    ops
}

/// Renders the bar chart for the most recent datapoints that fit `area`,
/// against the current axis bounds. Emits exactly the operation sequence
/// `spec_chart_ops` describes; a degenerate area renders nothing.
pub fn draw_bar_chart(window: &Vec<Datapoint>, meta: &BarChartMetaData, area: Rect) -> (r: Vec<
    PaintOp,
>)
    requires
        meta.well_formed(),
        area.well_formed(),
    ensures
        ops_view(r@) == spec_chart_ops(window@, *meta, area),
{
    let mut ops: Vec<PaintOp> = Vec::new();
    if area.width == 0 || area.height == 0 {
        proof {
            assert(ops_view(ops@) =~= spec_chart_ops(window@, *meta, area));
        }
        return ops;
    }
    let min = meta.min_bar_value;
    let max = meta.max_bar_value;
    ops.push(PaintOp::SetForeground(TermColor::Grey));
    let mut t1 = threshold_ops(BAR_CHART_YELLOW_START, area, min, max);
    ops.append(&mut t1);
    let mut t2 = threshold_ops(BAR_CHART_RED_START, area, min, max);
    ops.append(&mut t2);
    let mut t3 = top_rule_ops(area, max);
    ops.append(&mut t3);
    let ghost grid = seq![ScreenOp::Fg(TermColor::Grey)] + spec_threshold_ops(
        BAR_CHART_YELLOW_START,
        area,
        min as int,
        max as int,
    ) + spec_threshold_ops(BAR_CHART_RED_START, area, min as int, max as int) + spec_top_rule_ops(
        area,
        max as int,
    );
    proof {
        assert(ops_view(ops@) =~= grid);
    }
    let cap: usize = (area.width / (BAR_WIDTH + BAR_GAP)) as usize;
    let n: usize = if window.len() <= cap {
        window.len()
    } else {
        cap
    };
    let ghost shown = window@.take(n as int);
    proof {
        lemma_fundamental_div_mod(area.width as int, 2);
        assert(2 * (n as int) <= area.width as int);
        assert(n as int == spec_num_items(window@.len() as int, area));
    }
    let virtual_height: u64 = 8 * (area.height as u64);
    let mut i: usize = 0;
    while i < n
        invariant
            i <= n,
            n <= window@.len(),
            shown == window@.take(n as int),
            shown.len() == n,
            2 * (n as int) <= area.width as int,
            area.well_formed(),
            area.width >= 1,
            area.height >= 1,
            min < max,
            min == meta.min_bar_value,
            max == meta.max_bar_value,
            virtual_height == 8 * (area.height as u64),
            ops_view(ops@) == grid + spec_bars_upto(shown, area, min as int, max as int, i as int),
        decreases n - i,
    {
        let d = window[n - 1 - i];
        proof {
            assert(shown[n - 1 - i as int] == window@[n - 1 - i as int]);
        }
        proof {
            assert((BAR_WIDTH + BAR_GAP) as int == 2);
            assert(2 * (i as int) + 2 <= area.width as int);
            assert((i as int) * ((BAR_WIDTH + BAR_GAP) as int) == 2 * (i as int))
                by (nonlinear_arith)
                requires
                    (BAR_WIDTH + BAR_GAP) as int == 2,
            ;
        }
        let x: u16 = area.x + (i as u16) * (BAR_WIDTH + BAR_GAP);
        let ghost prev = ops@;
        ops.push(PaintOp::SetForeground(d.color()));
        if d.failed {
            ops.push(PaintOp::MoveTo(x, area.y + area.height - 1));
            ops.push(PaintOp::Print("X".to_owned()));
        } else {
            let scaled = map_range(d.value, min, max, 0, virtual_height);
            proof {
                lemma_fundamental_div_mod(scaled as int, 8);
            }
            let cells = cell_count(scaled);
            let mut cell_ops = bar_cell_ops(x, area, scaled, cells);
            ops.append(&mut cell_ops);
        }
        proof {
            let c = i as int;
            assert(x as int == area.x + c * ((BAR_WIDTH + BAR_GAP) as int));
            assert(ops_view(ops@) =~~= ops_view(prev) + spec_bar_ops(
                d,
                c,
                area,
                min as int,
                max as int,
            ));
            assert(ops_view(ops@) =~~= grid + spec_bars_upto(
                shown,
                area,
                min as int,
                max as int,
                i as int + 1,
            ));
        }
        i = i + 1;
    }
    proof {
        assert(ops_view(ops@) =~= spec_chart_ops(window@, *meta, area));
    }
    ops
}

} // verus!
