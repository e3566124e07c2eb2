//! One latency measurement, its severity coloring and its display texts.

use crate::paint::TermColor;
use crate::text::{spec_decimal, u64_to_string};
use vstd::prelude::*;
use vstd::string::StringExecFns;

verus! {

/// Latency, in milliseconds, at which a sample starts to color yellow.
pub const BAR_CHART_YELLOW_START: u64 = 25;

/// Latency, in milliseconds, at which a sample starts to color red.
pub const BAR_CHART_RED_START: u64 = 75;

/// One measurement taken by the probe: a timestamp, a round-trip time and a
/// failure flag. Immutable once created.
#[derive(Clone, Copy, Debug, PartialEq, Eq, Structural)]
pub struct Datapoint {
    /// Milliseconds since the Unix epoch at which the sample was taken.
    pub timestamp: i64,
    /// Round-trip time in milliseconds; meaningful only if not `failed`.
    pub value: u64,
    /// True if the probe did not complete.
    pub failed: bool,
}

/// Severity of a measurement: failures and values at or above the red
/// threshold are red, values at or above the yellow threshold are yellow,
/// everything below is green.
pub open spec fn spec_color(value: u64, failed: bool) -> TermColor {
    if failed || value >= BAR_CHART_RED_START {
        TermColor::Red
    } else if value >= BAR_CHART_YELLOW_START {
        TermColor::Yellow
    } else {
        TermColor::Green
    }
}

/// The text shown for a measurement's value: decimal milliseconds with the
/// unit, or the failure marker.
pub open spec fn spec_value_text(value: u64, failed: bool) -> Seq<char> {
    if failed {
        "X"@
    } else {
        spec_decimal(value as int) + " ms"@
    }
}

/// What the calendar formatter returns for a Unix-epoch millisecond count:
/// a fixed function of the count alone.
pub uninterp spec fn timestamp_text_of(ms: int) -> Seq<char>;

/// Relies on chrono's `DateTime::from_timestamp_millis` and its strftime
/// formatting: the timestamp is rendered in UTC as `%Y-%m-%d %H:%M:%S%.3f`,
/// so the text depends on the millisecond count alone. A count outside the
/// range chrono can represent yields the empty string.
#[verifier::external_body]
fn format_timestamp_millis(ms: i64) -> (r: String)
    ensures
        r@ == timestamp_text_of(ms as int),
{
    match chrono::DateTime::from_timestamp_millis(ms) {
        Some(dt) => dt.format("%Y-%m-%d %H:%M:%S%.3f").to_string(),
        None => String::new(),
    }
}

impl Datapoint {
    /// The severity color of this measurement.
    pub fn color(&self) -> (r: TermColor)
        ensures
            r == spec_color(self.value, self.failed),
    {
        if self.value >= BAR_CHART_RED_START || self.failed {
            TermColor::Red
        } else if self.value >= BAR_CHART_YELLOW_START {
            TermColor::Yellow
        } else {
            TermColor::Green
        }
    }

    /// The value column text: `"<value> ms"`, or `"X"` for a failed probe.
    pub fn value_str(&self) -> (r: String)
        ensures
            r@ == spec_value_text(self.value, self.failed),
    {
        if !self.failed {
            let s = u64_to_string(self.value);
            s.concat(" ms")
        } else {
            "X".to_owned()
        }
    }

    /// The formatted timestamp of this measurement.
    pub fn time_str(&self) -> (r: String)
        ensures
            r@ == timestamp_text_of(self.timestamp as int),
    {
        format_timestamp_millis(self.timestamp)
    }
}

/// Severity classification is a total, non-overlapping partition: a failed
/// measurement is red whatever its value, and a non-failed value lies in
/// exactly one of the three bands.
pub proof fn lemma_color_partition(value: u64, failed: bool)
    ensures
        failed ==> spec_color(value, failed) == TermColor::Red,
        !failed ==> (spec_color(value, failed) == TermColor::Green <==> value
            < BAR_CHART_YELLOW_START),
        !failed ==> (spec_color(value, failed) == TermColor::Yellow <==> BAR_CHART_YELLOW_START
            <= value < BAR_CHART_RED_START),
        !failed ==> (spec_color(value, failed) == TermColor::Red <==> value >= BAR_CHART_RED_START),
{
}

} // verus!
