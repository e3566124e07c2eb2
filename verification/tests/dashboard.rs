use pingboard::chart::{cell_count, draw_bar_chart, eighths_at, glyph_str};
use pingboard::datapoint::Datapoint;
use pingboard::geometry::Rect;
use pingboard::paint::{PaintOp, TermColor};
use pingboard::scale::{calc_bar_chart_metadata, map_range, BarChartMetaData};
use pingboard::summary::draw_data_info;
use pingboard::ui::Ui;
use pingboard::window::HistoryWindow;

fn dp(timestamp: i64, value: u64, failed: bool) -> Datapoint {
    Datapoint { timestamp, value, failed }
}

fn initial_meta() -> BarChartMetaData {
    BarChartMetaData {
        max_bar_value: 93,
        min_bar_value: 0,
        max_seen_value: None,
        min_seen_value: None,
    }
}

fn prints(ops: &[PaintOp]) -> Vec<String> {
    ops.iter()
        .filter_map(|op| match op {
            PaintOp::Print(s) => Some(s.clone()),
            _ => None,
        })
        .collect()
}

#[test]
fn map_range_midpoint_scales_linearly() {
    // axis range [0, 100] over ten rows of eight eighths each
    assert_eq!(map_range(50, 0, 100, 0, 80), 40);
    assert_eq!(map_range(25, 0, 100, 0, 80), 20);
    assert_eq!(map_range(100, 0, 100, 0, 80), 80);
    assert_eq!(map_range(0, 0, 100, 0, 80), 0);
}

#[test]
fn map_range_clamps_outside_source_range() {
    assert_eq!(map_range(5, 10, 20, 0, 80), 0);
    assert_eq!(map_range(10, 10, 20, 0, 80), 0);
    assert_eq!(map_range(25, 10, 20, 0, 80), 80);
    assert_eq!(map_range(u64::MAX, 10, 20, 0, 80), 80);
}

#[test]
fn map_range_is_monotone_on_samples() {
    let mut last = 0;
    for v in [0, 3, 10, 11, 47, 93, 200] {
        let r = map_range(v, 0, 93, 0, 80);
        assert!(r >= last);
        last = r;
    }
}

#[test]
fn quantization_scenario_fifty_over_hundred() {
    // thresholds {yellow: 25, red: 75}, axis [0, 100], ten rows
    let scaled = map_range(50, 0, 100, 0, 80);
    assert_eq!(scaled, 40);
    assert_eq!(scaled / 8, 5);
    assert_eq!(scaled % 8, 0);
    assert_eq!(cell_count(scaled), 5);
    assert_eq!(dp(0, 50, false).color(), TermColor::Yellow);
}

#[test]
fn quantization_eighths_per_row() {
    // 21 eighths: two full rows, five eighths in the third, blank above
    assert_eq!(eighths_at(21, 0), 8);
    assert_eq!(eighths_at(21, 1), 8);
    assert_eq!(eighths_at(21, 2), 5);
    assert_eq!(eighths_at(21, 3), 0);
    let total: u64 = (0..4).map(|j| eighths_at(21, j)).sum();
    assert_eq!(total, 21);
    assert_eq!(cell_count(21), 3);
}

#[test]
fn quantization_empty_bar_still_renders_blank() {
    assert_eq!(cell_count(0), 1);
    assert_eq!(glyph_str(0), " ");
    assert_eq!(glyph_str(8), "\u{2588}");
}

#[test]
fn severity_bands_partition_values() {
    assert_eq!(dp(0, 0, false).color(), TermColor::Green);
    assert_eq!(dp(0, 24, false).color(), TermColor::Green);
    assert_eq!(dp(0, 25, false).color(), TermColor::Yellow);
    assert_eq!(dp(0, 74, false).color(), TermColor::Yellow);
    assert_eq!(dp(0, 75, false).color(), TermColor::Red);
    assert_eq!(dp(0, u64::MAX, false).color(), TermColor::Red);
}

#[test]
fn severity_failed_is_red_regardless_of_value() {
    assert_eq!(dp(0, 0, true).color(), TermColor::Red);
    assert_eq!(dp(0, 50, true).color(), TermColor::Red);
    assert_eq!(dp(0, 200, true).color(), TermColor::Red);
}

#[test]
fn value_text_formats_milliseconds() {
    assert_eq!(dp(0, 50, false).value_str(), "50 ms");
    assert_eq!(dp(0, 0, false).value_str(), "0 ms");
    assert_eq!(dp(0, 1234, false).value_str(), "1234 ms");
    assert_eq!(dp(0, 50, true).value_str(), "X");
}

#[test]
fn time_text_formats_epoch_millis() {
    assert_eq!(dp(0, 1, false).time_str(), "1970-01-01 00:00:00.000");
    assert_eq!(dp(947638923004, 1, false).time_str(), "2000-01-12 01:02:03.004");
}

#[test]
fn window_evicts_oldest_at_capacity() {
    let mut w = HistoryWindow::new(3);
    w.push(dp(1, 10, false));
    w.push(dp(2, 20, false));
    w.push(dp(3, 30, false));
    assert_eq!(w.len(), 3);
    w.push(dp(4, 40, false));
    assert_eq!(w.len(), 3);
    // most recent first; the oldest timestamp (1) was evicted
    assert_eq!(w.get(0).timestamp, 4);
    assert_eq!(w.get(1).timestamp, 3);
    assert_eq!(w.get(2).timestamp, 2);
}

#[test]
fn axis_update_absorbs_batch_extrema() {
    let mut meta = initial_meta();
    let window = vec![dp(1, 200, false), dp(2, 3, false), dp(3, 999, true)];
    calc_bar_chart_metadata(&mut meta, &window);
    assert_eq!(meta.max_bar_value, 200);
    assert_eq!(meta.min_bar_value, 0);
    assert_eq!(meta.max_seen_value, Some(200));
    assert_eq!(meta.min_seen_value, Some(3));
}

#[test]
fn axis_update_ignores_all_failed_window() {
    let mut meta = initial_meta();
    let window = vec![dp(1, 500, true), dp(2, 900, true)];
    calc_bar_chart_metadata(&mut meta, &window);
    assert_eq!(meta, initial_meta());
}

#[test]
fn axis_never_shrinks_over_updates() {
    let mut meta = initial_meta();
    let windows = vec![
        vec![dp(1, 400, false)],
        vec![dp(2, 5, false)],
        vec![],
        vec![dp(3, 90, false)],
    ];
    let mut prior_max = meta.max_bar_value;
    for w in windows {
        calc_bar_chart_metadata(&mut meta, &w);
        assert!(meta.max_bar_value >= prior_max);
        assert!(meta.min_bar_value <= 0);
        prior_max = meta.max_bar_value;
    }
    assert_eq!(meta.max_bar_value, 400);
    assert_eq!(meta.max_seen_value, Some(400));
    assert_eq!(meta.min_seen_value, Some(5));
}

#[test]
fn chart_draws_only_most_recent_that_fit() {
    // window of three, most recent first; two columns fit a width of four
    let window = vec![dp(3, 0, true), dp(2, 200, false), dp(1, 10, false)];
    let mut meta = initial_meta();
    calc_bar_chart_metadata(&mut meta, &window);
    assert_eq!(meta.max_bar_value, 200);
    let area = Rect { x: 0, y: 0, width: 4, height: 5 };
    let ops = draw_bar_chart(&window, &meta, area);
    let texts = prints(&ops);
    // exactly one failure marker, no bar for the sample that does not fit
    assert_eq!(texts.iter().filter(|t| t.as_str() == "X").count(), 1);
    // the 200 ms bar fills the whole height with full blocks
    assert_eq!(texts.iter().filter(|t| t.as_str() == "\u{2588}").count(), 5);
    // the 10 ms sample is not drawn: no partial glyph appears
    for g in ["\u{2581}", "\u{2582}", "\u{2583}", "\u{2584}", "\u{2585}", "\u{2586}", "\u{2587}"] {
        assert_eq!(texts.iter().filter(|t| t.as_str() == g).count(), 0);
    }
    // failed column is red; the all-time extrema still cover the whole window
    assert!(ops.contains(&PaintOp::SetForeground(TermColor::Red)));
    assert_eq!(meta.max_seen_value, Some(200));
    assert_eq!(meta.min_seen_value, Some(10));
}

#[test]
fn chart_gridlines_and_labels() {
    let window: Vec<Datapoint> = Vec::new();
    let meta = initial_meta();
    let area = Rect { x: 0, y: 0, width: 4, height: 10 };
    let ops = draw_bar_chart(&window, &meta, area);
    assert_eq!(ops[0], PaintOp::SetForeground(TermColor::Grey));
    let texts = prints(&ops);
    assert!(texts.contains(&"25 ms".to_string()));
    assert!(texts.contains(&"75 ms".to_string()));
    assert!(texts.contains(&"93+ ms".to_string()));
    assert!(texts.contains(&"\u{2801}\u{2801}\u{2801}".to_string()));
}

#[test]
fn chart_narrow_viewport_draws_no_bars() {
    let window = vec![dp(1, 50, false), dp(2, 80, false)];
    let meta = initial_meta();
    let area = Rect { x: 0, y: 0, width: 1, height: 5 };
    let ops = draw_bar_chart(&window, &meta, area);
    // gridlines only: no severity color is ever set
    for c in [TermColor::Green, TermColor::Yellow, TermColor::Red] {
        assert!(!ops.contains(&PaintOp::SetForeground(c)));
    }
    let texts = prints(&ops);
    assert!(!texts.iter().any(|t| t.contains('\u{2588}')));
    assert!(!texts.iter().any(|t| t.as_str() == "X"));
}

#[test]
fn chart_degenerate_viewport_renders_nothing() {
    let window = vec![dp(1, 50, false)];
    let meta = initial_meta();
    let ops = draw_bar_chart(&window, &meta, Rect { x: 0, y: 0, width: 0, height: 5 });
    assert!(ops.is_empty());
    let ops = draw_bar_chart(&window, &meta, Rect { x: 0, y: 0, width: 5, height: 0 });
    assert!(ops.is_empty());
}

#[test]
fn summary_shows_extrema_and_recent_entries() {
    let mut meta = initial_meta();
    let window = vec![dp(2, 80, false), dp(1, 10, false)];
    calc_bar_chart_metadata(&mut meta, &window);
    let area = Rect { x: 10, y: 0, width: 20, height: 9 };
    let ops = draw_data_info(&window, &meta, area);
    let texts = prints(&ops);
    assert_eq!(texts[0], "Max: 80 ms");
    assert_eq!(texts[1], "Min: 10 ms");
    // two entries fit: (9 - 3) / 3 = 2
    assert_eq!(texts.iter().filter(|t| t.as_str() == "80 ms").count(), 1);
    assert_eq!(texts.iter().filter(|t| t.as_str() == "10 ms").count(), 1);
    assert!(texts.contains(&"1970-01-01 00:00:00.002".to_string()));
}

#[test]
fn summary_with_no_samples_reads_none() {
    let meta = initial_meta();
    let window: Vec<Datapoint> = Vec::new();
    let area = Rect { x: 0, y: 0, width: 20, height: 5 };
    let ops = draw_data_info(&window, &meta, area);
    let texts = prints(&ops);
    assert_eq!(texts[0], "Max: none");
    assert_eq!(texts[1], "Min: none");
}

#[test]
fn summary_truncates_entries_to_area_height() {
    let mut meta = initial_meta();
    let window: Vec<Datapoint> = (0..10).map(|i| dp(i, 10 + i as u64, false)).collect();
    calc_bar_chart_metadata(&mut meta, &window);
    let area = Rect { x: 0, y: 0, width: 20, height: 6 };
    let ops = draw_data_info(&window, &meta, area);
    let texts = prints(&ops);
    // one entry fits: (6 - 3) / 3 = 1, plus the two extrema lines
    assert_eq!(texts.len(), 2 + 2);
}

#[test]
fn repaint_composes_one_atomic_frame() {
    let mut ui = Ui::new();
    let window = vec![dp(2, 120, false), dp(1, 30, false)];
    let ops = ui.repaint(&window, 20, 10);
    assert_eq!(ops[0], PaintOp::ClearScreen);
    let n = ops.len();
    assert_eq!(ops[n - 3], PaintOp::SetForeground(TermColor::Reset));
    assert_eq!(ops[n - 2], PaintOp::SetBackground(TermColor::Reset));
    assert_eq!(ops[n - 1], PaintOp::ResetStyle);
    // the envelope absorbed the batch maximum before drawing
    assert_eq!(ui.bar_chart_meta_data.max_bar_value, 120);
    assert_eq!(ui.bar_chart_meta_data.max_seen_value, Some(120));
    // a second repaint with small values never lowers the ceiling
    let ops2 = ui.repaint(&vec![dp(3, 5, false)], 20, 10);
    assert!(!ops2.is_empty());
    assert_eq!(ui.bar_chart_meta_data.max_bar_value, 120);
    assert_eq!(ui.bar_chart_meta_data.min_seen_value, Some(5));
}

#[test]
fn split_gives_adjacent_floor_widths() {
    let full = Rect { x: 0, y: 0, width: 10, height: 4 };
    let parts = full.horizontal_split_percentages(&[80, 20]);
    assert_eq!(parts.len(), 2);
    assert_eq!((parts[0].x, parts[0].width), (0, 8));
    assert_eq!((parts[1].x, parts[1].width), (8, 2));
    assert_eq!(parts[0].height, 4);
    assert_eq!(parts[1].height, 4);
}

#[test]
fn split_of_degenerate_rectangle_gives_zero_widths() {
    let full = Rect { x: 3, y: 1, width: 0, height: 4 };
    let parts = full.horizontal_split_percentages(&[50, 50]);
    assert_eq!(parts.len(), 2);
    assert_eq!(parts[0].width, 0);
    assert_eq!(parts[1].width, 0);
    assert_eq!(parts[1].x, 3);
}

#[test]
fn rect_edges_saturate() {
    let r = Rect { x: 65000, y: 65000, width: 1000, height: 1000 };
    assert_eq!(r.right(), u16::MAX);
    assert_eq!(r.bottom(), u16::MAX);
    let r2 = Rect { x: 2, y: 3, width: 4, height: 5 };
    assert_eq!(r2.left(), 2);
    assert_eq!(r2.right(), 6);
    assert_eq!(r2.top(), 3);
    assert_eq!(r2.bottom(), 8);
}
