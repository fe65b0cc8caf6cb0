//! What holds of the sender loop's decisions, whatever the state they start from.

use crate::event::AppError;
use crate::sender::{backoff, paced, paced_through, SenderAction, SenderEvent, SenderView};
use crate::settings::SettingsView;
use crate::time::{advanced, Interval, Timestamp};
use vstd::prelude::*;

verus! {

/// The next probe is never due before the moment at which it is planned, and
/// it is due either one delay after the previous due time or one delay after
/// that moment.
pub proof fn lemma_due_time_bounds(previous: Timestamp, delay: Interval, now: Timestamp)
    ensures
        paced(previous, delay, now).nanos >= now.nanos,
        paced(previous, delay, now) == advanced(previous, delay) || paced(previous, delay, now)
            == advanced(now, delay),
        advanced(previous, delay).nanos >= now.nanos ==> paced(previous, delay, now) == advanced(
            previous,
            delay,
        ),
{
}

/// Pacing does not drift: as long as every cycle ends no later than the next
/// probe is due, the due time after any number of cycles is the first due
/// time plus that many delays, exactly. How late within its slot each cycle
/// ended leaves no trace.
pub proof fn lemma_pacing_does_not_drift(
    start: Timestamp,
    delay: Interval,
    readings: Seq<Timestamp>,
)
    requires
        start.nanos + readings.len() * delay.nanos <= u128::MAX,
        forall|i: int|
            0 <= i < readings.len() ==> (#[trigger] readings[i]).nanos <= start.nanos + (i + 1)
                * delay.nanos,
    ensures
        paced_through(start, delay, readings).nanos == start.nanos + readings.len() * delay.nanos,
    decreases readings.len(),
{
    if readings.len() > 0 {
        let n = readings.len() as int;
        let d = delay.nanos as int;
        let earlier = readings.drop_last();
        assert((n - 1) * d + d == n * d) by (nonlinear_arith);
        assert((n - 1) * d >= 0) by (nonlinear_arith)
            requires
                n >= 1,
                d >= 0,
        ;
        assert forall|i: int| 0 <= i < earlier.len() implies (#[trigger] earlier[i]).nanos
            <= start.nanos + (i + 1) * delay.nanos by {
            assert(earlier[i] == readings[i]);
        }
        lemma_pacing_does_not_drift(start, delay, earlier);
        assert(readings.last() == readings[n - 1]);
    }
}

/// A failed transmit first has the socket connected again and the same probe
/// sent once more; nothing else changes.
pub proof fn lemma_failed_transmit_reconnects(state: SenderView, now: Timestamp)
    ensures
        state.response(SenderEvent::TransmitFailed, now) == (SenderAction::Reconnect {
            seq: state.ping_id,
        }),
        state.after(SenderEvent::TransmitFailed, now) == state,
{
}

/// A host that never took a probe is given up at once: when a transmit to it
/// has failed for good, the foreground is told of a host resolution error,
/// probing is switched off, and after the report the loop waits for new
/// settings without trying again.
pub proof fn lemma_unreached_host_is_given_up(state: SenderView, now: Timestamp, later: Timestamp)
    requires
        !state.valid_remote,
    ensures
        state.response(SenderEvent::ReconnectFailed, now) == SenderAction::ReportFatal(
            AppError::HostResolution,
        ),
        !state.after(SenderEvent::ReconnectFailed, now).settings.running,
        state.after(SenderEvent::ReconnectFailed, now).response(SenderEvent::Reported, later)
            == SenderAction::AwaitSettings,
{
}

/// A host that took a probe before is tried again: when a transmit to it has
/// failed for good, nothing is reported, the settings stay as they are, and
/// the next probe is due three seconds after the failure.
pub proof fn lemma_reached_host_is_retried(state: SenderView, now: Timestamp)
    requires
        state.valid_remote,
    ensures
        state.response(SenderEvent::ReconnectFailed, now) == SenderAction::SleepUntil(
            advanced(now, backoff()),
        ),
        state.after(SenderEvent::ReconnectFailed, now).settings == state.settings,
        state.after(SenderEvent::ReconnectFailed, now).valid_remote,
        state.after(SenderEvent::ReconnectFailed, now).next_ping == advanced(now, backoff()),
        now.nanos + 3_000_000_000 <= u128::MAX ==> advanced(now, backoff()).nanos == now.nanos
            + 3_000_000_000,
{
}

/// Whether a state probes only if it has a remote host to probe.
pub open spec fn probes_a_host(state: SenderView) -> bool {
    state.settings.running ==> state.settings.remote_host.len() > 0
}

/// The loop never probes without a remote host: it starts paused, no event
/// switches probing on or changes the host, and settings that arrive switch
/// probing off if they name no host.
pub proof fn lemma_probing_needs_a_host(
    state: SenderView,
    event: SenderEvent,
    now: Timestamp,
    drained: Seq<SettingsView>,
)
    ensures
        probes_a_host(SenderView::initial(now)),
        probes_a_host(state) ==> probes_a_host(state.after(event, now)),
        state.after(event, now).settings.running ==> state.settings.running,
        state.after(event, now).settings.remote_host == state.settings.remote_host,
        drained.len() > 0 ==> probes_a_host(state.after_settings(drained)),
        probes_a_host(state) ==> probes_a_host(state.after_settings(drained)),
{
}

/// A probe is sent only while probing is switched on, and the loop waits for
/// settings only while it is switched off.
pub proof fn lemma_action_follows_running(state: SenderView)
    ensures
        state.pending_action() is Transmit <==> state.settings.running,
        state.pending_action() is AwaitSettings <==> !state.settings.running,
        state.pending_action() matches SenderAction::Transmit { seq } ==> seq == state.ping_id,
{
}

/// Settings that name no remote host stop the loop, whatever it was doing and
/// whether or not the host answered before.
pub proof fn lemma_blank_remote_stops(state: SenderView, drained: Seq<SettingsView>)
    requires
        drained.len() > 0,
        drained.last().remote_host.len() == 0,
    ensures
        !state.after_settings(drained).settings.running,
        state.settings_response(drained) == SenderAction::AwaitSettings,
{
}

/// Of the snapshots that arrive together only the newest is kept.
pub proof fn lemma_newest_settings_win(state: SenderView, drained: Seq<SettingsView>)
    requires
        drained.len() > 0,
    ensures
        state.after_settings(drained).settings == drained.last().runnable(),
        state.after_settings(drained).next_ping == state.next_ping,
        state.after_settings(drained).ping_id == state.ping_id,
{
}

} // verus!
