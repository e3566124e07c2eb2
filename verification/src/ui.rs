//! The frame compositor: one repaint folds the window into the axis
//! envelope, splits the viewport, queues the chart and the summary panel,
//! and closes with a style reset, as one atomic batch of operations.

use crate::chart::{draw_bar_chart, spec_chart_ops};
use crate::datapoint::Datapoint;
use crate::geometry::{spec_weight_sum, Rect};
use crate::paint::{ops_view, PaintOp, ScreenOp, TermColor};
use crate::scale::{
    calc_bar_chart_metadata, spec_update_meta, BarChartMetaData, DEFAULT_AXIS_MAX,
};
use crate::summary::{draw_data_info, spec_summary_ops};
use vstd::prelude::*;

verus! {

/// Percentage of the viewport width given to the bar chart.
pub const CHART_WIDTH_PCT: u16 = 80;

/// Percentage of the viewport width given to the summary panel.
pub const SUMMARY_WIDTH_PCT: u16 = 20;

/// The dashboard state kept between repaints: the axis envelope.
pub struct Ui {
    pub bar_chart_meta_data: BarChartMetaData,
}

/// The chart sub-area of a viewport, from the percentage split.
pub open spec fn spec_chart_area(width: u16, height: u16) -> Rect {
    Rect { x: 0, y: 0, width: (width * CHART_WIDTH_PCT / 100) as u16, height }
}

/// The summary sub-area of a viewport: adjacent to the chart's right edge.
pub open spec fn spec_summary_area(width: u16, height: u16) -> Rect {
    Rect {
        x: (width * CHART_WIDTH_PCT / 100) as u16,
        y: 0,
        width: (width * SUMMARY_WIDTH_PCT / 100) as u16,
        height,
    }
}

/// Every operation of one full repaint, in order: clear, the bar chart over
/// the updated axis bounds, the summary panel, and the closing style reset.
pub open spec fn spec_repaint_ops(
    window: Seq<Datapoint>,
    meta: BarChartMetaData,
    width: u16,
    height: u16,
) -> Seq<ScreenOp> {
    let m2 = spec_update_meta(meta, window);
    seq![ScreenOp::Clear] + spec_chart_ops(window, m2, spec_chart_area(width, height))
        + spec_summary_ops(m2, window, spec_summary_area(width, height)) + seq![
        ScreenOp::Fg(TermColor::Reset),
        ScreenOp::Bg(TermColor::Reset),
        ScreenOp::Reset,
    ]
}

impl Ui {
    /// A fresh dashboard session: default axis bounds, nothing seen yet.
    pub fn new() -> (r: Ui)
        ensures
            r.bar_chart_meta_data == BarChartMetaData::spec_initial(),
            r.bar_chart_meta_data.well_formed(),
    {
        Ui {
            bar_chart_meta_data: BarChartMetaData {
                max_bar_value: DEFAULT_AXIS_MAX,
                min_bar_value: 0,
                max_seen_value: None,
                min_seen_value: None,
            },
        }
    }

    /// One repaint: updates the axis envelope from the visible window before
    /// any height is computed, then queues exactly the operation sequence
    /// `spec_repaint_ops` describes for the window and viewport.
    pub fn repaint(&mut self, datapoints: &Vec<Datapoint>, width: u16, height: u16) -> (r: Vec<
        PaintOp,
    >)
        requires
            old(self).bar_chart_meta_data.well_formed(),
        ensures
            final(self).bar_chart_meta_data == spec_update_meta(
                old(self).bar_chart_meta_data,
                datapoints@,
            ),
            final(self).bar_chart_meta_data.well_formed(),
            ops_view(r@) == spec_repaint_ops(
                datapoints@,
                old(self).bar_chart_meta_data,
                width,
                height,
            ),
    {
        let mut ops: Vec<PaintOp> = Vec::new();
        ops.push(PaintOp::ClearScreen);
        let full = Rect { x: 0, y: 0, width, height };
        let mut pcts: Vec<u16> = Vec::new();
        pcts.push(CHART_WIDTH_PCT);
        pcts.push(SUMMARY_WIDTH_PCT);
        proof {
            assert(pcts@ =~= seq![CHART_WIDTH_PCT, SUMMARY_WIDTH_PCT]);
            assert(pcts@.drop_last() =~= seq![CHART_WIDTH_PCT]);
            assert(seq![CHART_WIDTH_PCT].drop_last() =~= Seq::<u16>::empty());
            assert(spec_weight_sum(Seq::<u16>::empty()) == 0);
            assert(spec_weight_sum(seq![CHART_WIDTH_PCT]) == CHART_WIDTH_PCT);
            assert(spec_weight_sum(pcts@) == 100);
        }
        let areas = full.horizontal_split_percentages(pcts.as_slice());
        let area0 = areas[0];
        let area1 = areas[1];
        proof {
            assert(area0 == spec_chart_area(width, height));
            assert(area1 == spec_summary_area(width, height));
        }
        calc_bar_chart_metadata(&mut self.bar_chart_meta_data, datapoints);
        let mut chart = draw_bar_chart(datapoints, &self.bar_chart_meta_data, area0);
        ops.append(&mut chart);
        let mut info = draw_data_info(datapoints, &self.bar_chart_meta_data, area1);
        ops.append(&mut info);
        ops.push(PaintOp::SetForeground(TermColor::Reset));
        ops.push(PaintOp::SetBackground(TermColor::Reset));
        ops.push(PaintOp::ResetStyle);
        proof {
            assert(ops_view(ops@) =~~= spec_repaint_ops(
                datapoints@,
                old(self).bar_chart_meta_data,
                width,
                height,
            ));
        }
        ops
    }
}

} // verus!
