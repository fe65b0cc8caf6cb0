//! Small rules of the graph: how far it can be zoomed, and in which unit a
//! latency is labelled.

use vstd::prelude::*;

verus! {

/// The greatest zoom level of either axis.
pub const ZOOM_MAX: u16 = 20;

/// The latency from which the label counts seconds, in milliseconds.
pub const LABEL_SECONDS_FROM: u128 = 1000;

/// The latency from which the label only says that it is over a minute, in milliseconds.
pub const LABEL_MINUTE_FROM: u128 = 60000;

/// The unit in which a latency is labelled.
#[derive(Copy, Clone, Debug, PartialEq, Eq, Structural)]
pub enum LatencyUnit {
    /// Whole milliseconds.
    Millis,
    /// Seconds with two decimals.
    Seconds,
    /// No number: the latency is a minute or more.
    OverMinute,
}

/// The zoom level `steps` above `level`, held between zero and `ZOOM_MAX`.
pub open spec fn zoom_level(level: int, steps: int) -> int {
    if level + steps < 0 {
        0
    } else if level + steps > ZOOM_MAX {
        ZOOM_MAX as int
    } else {
        level + steps
    }
}

/// The zoom level after the wheel turned `steps` notches, up if positive.
pub fn zoomed(level: u16, steps: i64) -> (zoomed: u16)
    ensures
        zoomed == zoom_level(level as int, steps as int),
        zoomed <= ZOOM_MAX,
{
    if steps <= -(level as i64) {
        0
    } else if steps >= ZOOM_MAX as i64 - level as i64 {
        ZOOM_MAX
    } else {
        (level as i64 + steps) as u16
    }
}

/// The unit in which a latency of `millis` milliseconds is labelled.
pub fn latency_unit(millis: u128) -> (unit: LatencyUnit)
    ensures
        unit is Millis <==> millis < LABEL_SECONDS_FROM,
        unit is Seconds <==> LABEL_SECONDS_FROM <= millis < LABEL_MINUTE_FROM,
        unit is OverMinute <==> millis >= LABEL_MINUTE_FROM,
{
    if millis < LABEL_SECONDS_FROM {
        LatencyUnit::Millis
    } else if millis < LABEL_MINUTE_FROM {
        LatencyUnit::Seconds
    } else {
        LatencyUnit::OverMinute
    }
}

} // verus!
