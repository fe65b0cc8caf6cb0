use latgraph::graph::{latency_unit, zoomed, LatencyUnit, ZOOM_MAX};
use latgraph::ticks::{
    tick_interval_millis, update_ticks_step, TICK_MAX_STEP, TICK_MIN_STEP, TICK_STEP_COUNT,
};

#[test]
fn tick_intervals_are_the_fixed_ladder() {
    let ladder: Vec<u128> = (0..TICK_STEP_COUNT).map(tick_interval_millis).collect();
    assert_eq!(
        ladder,
        vec![100, 250, 500, 1000, 2500, 5000, 10_000, 20_000, 30_000, 60_000, 120_000, 240_000]
    );
    assert_eq!(TICK_MIN_STEP, 75);
    assert_eq!(TICK_MAX_STEP, 200);
}

#[test]
fn step_widens_until_ticks_are_far_enough_apart() {
    // distances for width 5 and delay 100: 5, 12, 25, 50, 125, ...
    assert_eq!(update_ticks_step(0, 5, 100), 4);
    assert_eq!(update_ticks_step(3, 5, 100), 4);
}

#[test]
fn step_narrows_until_ticks_are_close_enough() {
    // distances for width 5 and delay 100: ..., 125, 250, 500, ...
    assert_eq!(update_ticks_step(11, 5, 100), 4);
    assert_eq!(update_ticks_step(5, 5, 100), 4);
}

#[test]
fn step_in_range_stays() {
    assert_eq!(update_ticks_step(4, 5, 100), 4);
    // width 2, delay 1: 200, 500, ...
    assert_eq!(update_ticks_step(0, 2, 1), 0);
}

#[test]
fn step_stops_at_the_narrowest_interval() {
    // width 10, delay 1: every distance is over the maximum
    assert_eq!(update_ticks_step(7, 10, 1), 0);
    assert_eq!(update_ticks_step(0, 10, 1), 0);
}

#[test]
fn step_stops_at_the_widest_interval() {
    // width 0: every distance is zero
    assert_eq!(update_ticks_step(0, 0, 100), 11);
    assert_eq!(update_ticks_step(11, 0, 100), 11);
    // width 1, delay 10_000: 0, 0, 0, 0, 0, 0, 1, 2, 3, 6, 12, 24
    assert_eq!(update_ticks_step(2, 1, 10_000), 11);
}

#[test]
fn step_that_jumps_over_the_range_settles_above_it() {
    // width 1, delay 1: 100, 250, ...; from 1 the search goes down to 0 and stays
    assert_eq!(update_ticks_step(1, 1, 1), 0);
    // width 3, delay 10: 30, 75, 150, 300; from 3 down to 2, which is in range
    assert_eq!(update_ticks_step(3, 3, 10), 2);
    // from 0 up to 1, which is exactly the minimum
    assert_eq!(update_ticks_step(0, 3, 10), 1);
}

#[test]
fn zoom_follows_the_wheel() {
    assert_eq!(ZOOM_MAX, 20);
    assert_eq!(zoomed(8, 1), 9);
    assert_eq!(zoomed(8, -1), 7);
    assert_eq!(zoomed(8, 0), 8);
    assert_eq!(zoomed(8, 5), 13);
}

#[test]
fn zoom_stays_between_zero_and_the_maximum() {
    assert_eq!(zoomed(0, -1), 0);
    assert_eq!(zoomed(3, -7), 0);
    assert_eq!(zoomed(20, 1), 20);
    assert_eq!(zoomed(19, 1), 20);
    assert_eq!(zoomed(15, 100), 20);
    assert_eq!(zoomed(0, i64::MIN), 0);
    assert_eq!(zoomed(u16::MAX, i64::MIN), 0);
    assert_eq!(zoomed(0, i64::MAX), 20);
}

#[test]
fn zoom_above_the_maximum_comes_back_into_range() {
    assert_eq!(zoomed(100, -1), 20);
    assert_eq!(zoomed(100, 0), 20);
    assert_eq!(zoomed(100, -90), 10);
    assert_eq!(zoomed(u16::MAX, -65535), 0);
}

#[test]
fn latency_label_units() {
    assert_eq!(latency_unit(0), LatencyUnit::Millis);
    assert_eq!(latency_unit(999), LatencyUnit::Millis);
    assert_eq!(latency_unit(1000), LatencyUnit::Seconds);
    assert_eq!(latency_unit(59_999), LatencyUnit::Seconds);
    assert_eq!(latency_unit(60_000), LatencyUnit::OverMinute);
    assert_eq!(latency_unit(u128::MAX), LatencyUnit::OverMinute);
}
