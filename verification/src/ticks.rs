//! The spacing of the time axis: which of a fixed ladder of tick intervals
//! puts neighbouring ticks at a readable distance.

use vstd::prelude::*;

verus! {

/// The least distance between two ticks, in pixels.
pub const TICK_MIN_STEP: u128 = 75;

/// The greatest distance between two ticks, in pixels.
pub const TICK_MAX_STEP: u128 = 200;

/// The number of tick intervals to choose from.
pub const TICK_STEP_COUNT: usize = 12;

/// The widest bar, in pixels, for which every tick distance fits in 128 bits.
pub const STEP_WIDTH_MAX: u128 = 1417843195503910264430727530965700;

/// The tick interval with index `step`, in milliseconds. The intervals grow with the index.
pub open spec fn tick_interval(step: int) -> int {
    if step <= 0 {
        100
    } else if step == 1 {
        250
    } else if step == 2 {
        500
    } else if step == 3 {
        1000
    } else if step == 4 {
        2500
    } else if step == 5 {
        5000
    } else if step == 6 {
        10_000
    } else if step == 7 {
        20_000
    } else if step == 8 {
        30_000
    } else if step == 9 {
        60_000
    } else if step == 10 {
        120_000
    } else {
        240_000
    }
}

/// The distance in pixels between two ticks that are `tick_interval(step)`
/// apart, when one probe takes `step_width` pixels and probes are
/// `delay_millis` apart.
pub open spec fn tick_distance(step: int, step_width: int, delay_millis: int) -> int {
    tick_interval(step) * step_width / delay_millis
}

/// Whether `low` is where the search for a narrower interval ends when it
/// starts at `old_step`: every interval above it up to the start puts the
/// ticks too far apart, and it does not itself, unless it is the narrowest.
pub open spec fn narrowed_to(low: int, old_step: int, step_width: int, delay_millis: int) -> bool {
    &&& 0 <= low <= old_step
    &&& low == 0 || tick_distance(low, step_width, delay_millis) <= TICK_MAX_STEP
    &&& forall|s: int|
        low < s <= old_step ==> #[trigger] tick_distance(s, step_width, delay_millis)
            > TICK_MAX_STEP
}

/// Whether `step` is where the search for a wider interval ends when it
/// starts at `low`: every interval from the start up to it puts the ticks too
/// close, and it does not itself, unless it is the widest.
pub open spec fn widened_to(step: int, low: int, step_width: int, delay_millis: int) -> bool {
    &&& low <= step < TICK_STEP_COUNT
    &&& step == TICK_STEP_COUNT - 1 || tick_distance(step, step_width, delay_millis)
        >= TICK_MIN_STEP
    &&& forall|s: int|
        low <= s < step ==> #[trigger] tick_distance(s, step_width, delay_millis) < TICK_MIN_STEP
}

/// The tick interval with index `step`, in milliseconds.
pub fn tick_interval_millis(step: usize) -> (millis: u128)
    requires
        step < TICK_STEP_COUNT,
    ensures
        millis == tick_interval(step as int),
{
    if step == 0 {
        100
    } else if step == 1 {
        250
    } else if step == 2 {
        500
    } else if step == 3 {
        1000
    } else if step == 4 {
        2500
    } else if step == 5 {
        5000
    } else if step == 6 {
        10_000
    } else if step == 7 {
        20_000
    } else if step == 8 {
        30_000
    } else if step == 9 {
        60_000
    } else if step == 10 {
        120_000
    } else {
        240_000
    }
}

/// The distance in pixels between two ticks at interval `step`.
fn tick_distance_pixels(step: usize, step_width: u128, delay_millis: u128) -> (pixels: u128)
    requires
        step < TICK_STEP_COUNT,
        step_width <= STEP_WIDTH_MAX,
        delay_millis > 0,
    ensures
        pixels == tick_distance(step as int, step_width as int, delay_millis as int),
{
    let interval: u128 = tick_interval_millis(step);
    assert(interval * step_width <= 240_000 * 1417843195503910264430727530965700) by (nonlinear_arith)
        requires
            0 <= interval <= 240_000,
            0 <= step_width <= 1417843195503910264430727530965700,
    ;
    interval * step_width / delay_millis
}

/// The tick interval to use from now on, given the one in use.
///
/// Starting from `old_step`, the interval is first narrowed for as long as
/// the ticks are more than `TICK_MAX_STEP` pixels apart, then widened for as
/// long as they are less than `TICK_MIN_STEP` pixels apart.
pub fn update_ticks_step(old_step: usize, step_width: u128, delay_millis: u128) -> (step: usize)
    requires
        old_step < TICK_STEP_COUNT,
        step_width <= STEP_WIDTH_MAX,
        delay_millis > 0,
    ensures
        step < TICK_STEP_COUNT,
        exists|low: int|
            #[trigger] narrowed_to(low, old_step as int, step_width as int, delay_millis as int)
                && widened_to(step as int, low, step_width as int, delay_millis as int),
{
    let mut step: usize = old_step;
    while step > 0 && tick_distance_pixels(step, step_width, delay_millis) > TICK_MAX_STEP
        invariant
            step <= old_step < TICK_STEP_COUNT,
            step_width <= STEP_WIDTH_MAX,
            delay_millis > 0,
            forall|s: int|
                step < s <= old_step ==> #[trigger] tick_distance(
                    s,
                    step_width as int,
                    delay_millis as int,
                ) > TICK_MAX_STEP,
        decreases step,
    {
        step = step - 1;
    }
    let ghost low: int = step as int;
    assert(narrowed_to(low, old_step as int, step_width as int, delay_millis as int));
    while step < TICK_STEP_COUNT - 1 && tick_distance_pixels(step, step_width, delay_millis)
        < TICK_MIN_STEP
        invariant
            low <= step < TICK_STEP_COUNT,
            step_width <= STEP_WIDTH_MAX,
            delay_millis > 0,
            forall|s: int|
                low <= s < step ==> #[trigger] tick_distance(
                    s,
                    step_width as int,
                    delay_millis as int,
                ) < TICK_MIN_STEP,
        decreases TICK_STEP_COUNT - step,
    {
        step = step + 1;
    }
    assert(widened_to(step as int, low, step_width as int, delay_millis as int));
    step
}

} // verus!
