use latgraph::event::AppError;
use latgraph::sender::{
    next_probe_time, next_sequence, Sender, SenderAction, SenderEvent, RETRY_BACKOFF_SECS,
};
use latgraph::settings::LatGraphSettings;
use latgraph::time::{Interval, Timestamp};

fn at(millis: u64) -> Timestamp {
    Timestamp::from_millis(millis)
}

fn snapshot(running: bool, host: &str, delay_millis: u64) -> LatGraphSettings {
    LatGraphSettings {
        running,
        remote_host: String::from(host),
        zoom: (8, 8),
        delay: Interval::from_millis(delay_millis),
    }
}

/// A sender that runs against `host`, connected, with nothing sent yet.
fn started(host: &str, delay_millis: u64, now: u64) -> Sender {
    let mut sender = Sender::new(at(now));
    assert_eq!(
        sender.settings_drained(vec![snapshot(true, host, delay_millis)]),
        SenderAction::Connect
    );
    assert_eq!(
        sender.handle(SenderEvent::Connected, at(now)),
        SenderAction::Transmit { seq: 0 }
    );
    sender
}

#[test]
fn new_sender_waits_for_settings() {
    let sender = Sender::new(at(5));
    assert_eq!(sender.next_action(), SenderAction::AwaitSettings);
    assert!(!sender.settings().running);
    assert_eq!(sender.settings().remote_host, "");
    assert_eq!(sender.settings().delay, Interval::from_millis(100));
}

#[test]
fn next_probe_is_one_delay_after_the_previous_target() {
    let delay = Interval::from_millis(100);
    assert_eq!(next_probe_time(at(1_000), delay, at(1_003)), at(1_100));
    assert_eq!(next_probe_time(at(1_000), delay, at(1_099)), at(1_100));
    assert_eq!(next_probe_time(at(1_000), delay, at(1_100)), at(1_100));
    assert_eq!(next_probe_time(at(1_000), delay, at(900)), at(1_100));
}

#[test]
fn next_probe_after_a_missed_target_is_one_delay_from_now() {
    let delay = Interval::from_millis(100);
    assert_eq!(next_probe_time(at(1_000), delay, at(1_101)), at(1_201));
    assert_eq!(next_probe_time(at(1_000), delay, at(60_000)), at(60_100));
}

#[test]
fn next_probe_time_stops_at_the_largest_point() {
    let end = Timestamp::from_nanos(u128::MAX);
    assert_eq!(next_probe_time(end, Interval::from_millis(100), at(0)), end);
    assert_eq!(next_probe_time(at(0), Interval::from_nanos(u128::MAX), at(1)), end);
}

#[test]
fn sequence_numbers_wrap_around() {
    assert_eq!(next_sequence(0), 1);
    assert_eq!(next_sequence(41), 42);
    assert_eq!(next_sequence(u64::MAX - 1), u64::MAX);
    assert_eq!(next_sequence(u64::MAX), 0);
}

#[test]
fn pacing_does_not_drift_over_many_cycles() {
    let mut sender = started("example.org", 100, 1_000);
    for cycle in 1..=50u64 {
        // each cycle ends a little late, but before the next probe is due
        let now = at(1_000 + (cycle - 1) * 100 + cycle % 7);
        assert_eq!(
            sender.handle(SenderEvent::Delivered, now),
            SenderAction::SleepUntil(at(1_000 + cycle * 100))
        );
        assert_eq!(
            sender.settings_drained(Vec::new()),
            SenderAction::Transmit { seq: cycle }
        );
    }
}

#[test]
fn pacing_restarts_after_a_long_pause() {
    let mut sender = started("example.org", 100, 0);
    assert_eq!(
        sender.handle(SenderEvent::Delivered, at(1)),
        SenderAction::SleepUntil(at(100))
    );
    assert_eq!(
        sender.handle(SenderEvent::Delivered, at(5_000)),
        SenderAction::SleepUntil(at(5_100))
    );
    assert_eq!(
        sender.handle(SenderEvent::Delivered, at(5_101)),
        SenderAction::SleepUntil(at(5_200))
    );
}

#[test]
fn failed_transmit_asks_for_a_reconnect() {
    let mut sender = started("example.org", 100, 0);
    assert_eq!(
        sender.handle(SenderEvent::TransmitFailed, at(1)),
        SenderAction::Reconnect { seq: 0 }
    );
    assert_eq!(sender.next_action(), SenderAction::Transmit { seq: 0 });
    assert_eq!(sender.remote_address(), "example.org:7");
}

#[test]
fn host_that_never_answered_is_given_up() {
    let mut sender = started("no.such.host", 100, 0);
    assert_eq!(
        sender.handle(SenderEvent::TransmitFailed, at(1)),
        SenderAction::Reconnect { seq: 0 }
    );
    assert_eq!(
        sender.handle(SenderEvent::ReconnectFailed, at(2)),
        SenderAction::ReportFatal(AppError::HostResolution)
    );
    assert!(!sender.settings().running);
    assert_eq!(sender.settings().remote_host, "no.such.host");
    assert_eq!(
        sender.handle(SenderEvent::Reported, at(3)),
        SenderAction::AwaitSettings
    );
    assert_eq!(sender.next_action(), SenderAction::AwaitSettings);
}

#[test]
fn host_that_answered_before_is_retried_after_three_seconds() {
    let mut sender = started("example.org", 100, 0);
    assert_eq!(
        sender.handle(SenderEvent::Delivered, at(1)),
        SenderAction::SleepUntil(at(100))
    );
    assert_eq!(
        sender.handle(SenderEvent::TransmitFailed, at(101)),
        SenderAction::Reconnect { seq: 1 }
    );
    assert_eq!(
        sender.handle(SenderEvent::ReconnectFailed, at(150)),
        SenderAction::SleepUntil(at(3_150))
    );
    assert!(sender.settings().running);
    assert_eq!(
        sender.settings_drained(Vec::new()),
        SenderAction::Transmit { seq: 2 }
    );
    assert_eq!(RETRY_BACKOFF_SECS, 3);
}

#[test]
fn reconnect_that_delivers_counts_as_delivered() {
    let mut sender = started("example.org", 100, 0);
    assert_eq!(
        sender.handle(SenderEvent::TransmitFailed, at(1)),
        SenderAction::Reconnect { seq: 0 }
    );
    assert_eq!(
        sender.handle(SenderEvent::Delivered, at(2)),
        SenderAction::SleepUntil(at(100))
    );
    // the host has answered now, so the next failure is not fatal
    sender.handle(SenderEvent::TransmitFailed, at(101));
    assert_eq!(
        sender.handle(SenderEvent::ReconnectFailed, at(102)),
        SenderAction::SleepUntil(at(3_102))
    );
}

#[test]
fn failed_connect_to_a_new_host_is_fatal() {
    let mut sender = Sender::new(at(0));
    assert_eq!(
        sender.settings_drained(vec![snapshot(true, "no.such.host", 100)]),
        SenderAction::Connect
    );
    assert_eq!(
        sender.handle(SenderEvent::ConnectFailed, at(1)),
        SenderAction::ReportFatal(AppError::HostResolution)
    );
    assert!(!sender.settings().running);
    assert_eq!(
        sender.handle(SenderEvent::Reported, at(2)),
        SenderAction::AwaitSettings
    );
}

#[test]
fn new_host_has_not_answered_yet() {
    let mut sender = started("first.example", 100, 0);
    sender.handle(SenderEvent::Delivered, at(1));
    assert_eq!(
        sender.settings_drained(vec![snapshot(true, "second.example", 100)]),
        SenderAction::Connect
    );
    assert_eq!(sender.remote_address(), "second.example:7");
    assert_eq!(
        sender.handle(SenderEvent::Connected, at(100)),
        SenderAction::Transmit { seq: 1 }
    );
    sender.handle(SenderEvent::TransmitFailed, at(101));
    assert_eq!(
        sender.handle(SenderEvent::ReconnectFailed, at(102)),
        SenderAction::ReportFatal(AppError::HostResolution)
    );
}

#[test]
fn same_host_is_not_connected_again() {
    let mut sender = started("example.org", 100, 0);
    sender.handle(SenderEvent::Delivered, at(1));
    assert_eq!(
        sender.settings_drained(vec![snapshot(true, "example.org", 250)]),
        SenderAction::Transmit { seq: 1 }
    );
    assert_eq!(sender.settings().delay, Interval::from_millis(250));
    assert_eq!(
        sender.handle(SenderEvent::Delivered, at(101)),
        SenderAction::SleepUntil(at(350))
    );
}

#[test]
fn only_the_newest_snapshot_is_kept() {
    let mut sender = started("example.org", 100, 0);
    let action = sender.settings_drained(vec![
        snapshot(false, "example.org", 10),
        snapshot(true, "example.org", 20),
        snapshot(true, "example.org", 30),
    ]);
    assert_eq!(action, SenderAction::Transmit { seq: 0 });
    assert_eq!(sender.settings().delay, Interval::from_millis(30));
    assert!(sender.settings().running);
}

#[test]
fn host_change_among_older_snapshots_is_noticed() {
    let mut sender = started("example.org", 100, 0);
    sender.handle(SenderEvent::Delivered, at(1));
    let action = sender.settings_drained(vec![
        snapshot(true, "other.example", 100),
        snapshot(true, "example.org", 100),
    ]);
    assert_eq!(action, SenderAction::Connect);
    assert_eq!(sender.settings().remote_host, "example.org");
}

#[test]
fn pause_stops_probing_at_once() {
    let mut sender = started("example.org", 100, 0);
    sender.handle(SenderEvent::Delivered, at(1));
    assert_eq!(
        sender.settings_drained(vec![snapshot(false, "example.org", 100)]),
        SenderAction::AwaitSettings
    );
    assert_eq!(
        sender.settings_drained(vec![snapshot(true, "example.org", 100)]),
        SenderAction::Transmit { seq: 1 }
    );
}

#[test]
fn blank_host_stops_probing() {
    let mut sender = started("example.org", 100, 0);
    sender.handle(SenderEvent::Delivered, at(1));
    assert_eq!(
        sender.settings_drained(vec![snapshot(true, "", 100)]),
        SenderAction::AwaitSettings
    );
    assert!(!sender.settings().running);
    assert_eq!(sender.settings().remote_host, "");
}

#[test]
fn running_without_a_host_does_not_start() {
    let mut sender = Sender::new(at(0));
    assert_eq!(
        sender.settings_drained(vec![snapshot(true, "", 100)]),
        SenderAction::AwaitSettings
    );
    assert!(!sender.settings().running);
}

#[test]
fn no_snapshots_change_nothing() {
    let mut sender = Sender::new(at(0));
    assert_eq!(sender.settings_drained(Vec::new()), SenderAction::AwaitSettings);
    let mut running = started("example.org", 100, 0);
    assert_eq!(
        running.settings_drained(Vec::new()),
        SenderAction::Transmit { seq: 0 }
    );
    assert_eq!(running.settings().remote_host, "example.org");
}

#[test]
fn closed_channel_ends_the_loop() {
    let mut idle = Sender::new(at(0));
    assert_eq!(idle.handle(SenderEvent::Closed, at(1)), SenderAction::Exit);
    let mut running = started("example.org", 100, 0);
    assert_eq!(running.handle(SenderEvent::Closed, at(1)), SenderAction::Exit);
    assert!(running.settings().running);
}
