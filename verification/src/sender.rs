//! The decisions of the sender loop.
//!
//! The loop itself does the outside work: it reads the clock, tells the
//! foreground, talks to the socket, sleeps and waits for settings. After each
//! piece of outside work it hands what happened to a [`Sender`], which keeps
//! the loop's state and answers with the next thing to do.

use crate::event::AppError;
use crate::settings::{remote_address, with_echo_port, LatGraphSettings, SettingsView};
use crate::time::{advanced, Interval, Timestamp, NANOS_PER_SEC};
use vstd::prelude::*;

verus! {

/// How long the loop waits after a failed transmit to a host that answered
/// before, in seconds.
pub const RETRY_BACKOFF_SECS: u64 = 3;

/// What the outside work of the loop ended in.
#[derive(Copy, Clone, Debug, PartialEq, Eq, Structural)]
pub enum SenderEvent {
    /// The probe left, at the first attempt or after a reconnect.
    Delivered,
    /// The probe could not be handed to the socket.
    TransmitFailed,
    /// After a failed transmit, connecting again or sending again failed too.
    ReconnectFailed,
    /// The socket is connected to the new remote host.
    Connected,
    /// The socket could not be connected to the new remote host.
    ConnectFailed,
    /// The foreground has been told of the error.
    Reported,
    /// The foreground is gone.
    Closed,
}

/// What the loop has to do next.
#[derive(Copy, Clone, Debug, PartialEq, Eq, Structural)]
pub enum SenderAction {
    /// Block until the foreground sends settings, then hand them over.
    AwaitSettings,
    /// Read the clock, tell the foreground that a probe leaves, and send the
    /// probe with this sequence number.
    Transmit { seq: u64 },
    /// Connect the socket to the remote address again and send the probe with
    /// this sequence number once more.
    Reconnect { seq: u64 },
    /// Connect the socket to the remote address.
    Connect,
    /// Tell the foreground of this error.
    ReportFatal(AppError),
    /// Sleep until this time, then hand over the settings that have queued up.
    SleepUntil(Timestamp),
    /// Leave the loop.
    Exit,
}

/// The wait after a failed transmit to a host that answered before.
pub open spec fn backoff() -> Interval {
    Interval { nanos: (RETRY_BACKOFF_SECS * NANOS_PER_SEC) as u128 }
}

/// The sequence number after `seq`; after the largest comes zero.
pub open spec fn following(seq: u64) -> u64 {
    if seq == u64::MAX {
        0
    } else {
        (seq + 1) as u64
    }
}

/// When the next probe is due: one delay after the previous due time, or, if
/// that has passed already at `now`, one delay after `now`.
pub open spec fn paced(previous: Timestamp, delay: Interval, now: Timestamp) -> Timestamp {
    let target = advanced(previous, delay);
    if target.nanos < now.nanos {
        advanced(now, delay)
    } else {
        target
    }
}

/// The due time after one on-schedule cycle for each reading of the clock in
/// `readings`, starting from the due time `start`.
pub open spec fn paced_through(
    start: Timestamp,
    delay: Interval,
    readings: Seq<Timestamp>,
) -> Timestamp
    decreases readings.len(),
{
    if readings.len() == 0 {
        start
    } else {
        paced(paced_through(start, delay, readings.drop_last()), delay, readings.last())
    }
}

/// The host named by the snapshot before snapshot `i` of `drained`, which for
/// the first is the host in use.
pub open spec fn host_before(current: Seq<char>, drained: Seq<SettingsView>, i: int) -> Seq<char> {
    if i == 0 {
        current
    } else {
        drained[i - 1].remote_host
    }
}

/// Whether snapshot `i` of `drained` names another host than the one before it.
pub open spec fn host_differs(current: Seq<char>, drained: Seq<SettingsView>, i: int) -> bool {
    drained[i].remote_host != host_before(current, drained, i)
}

/// Whether the remote host changed anywhere among the first `upto` snapshots
/// of `drained`, taken in order after the host in use.
pub open spec fn remote_changed(current: Seq<char>, drained: Seq<SettingsView>, upto: int) -> bool {
    exists|i: int| 0 <= i < upto && #[trigger] host_differs(current, drained, i)
}

/// The models of a run of snapshots.
pub open spec fn views(snapshots: Seq<LatGraphSettings>) -> Seq<SettingsView> {
    snapshots.map_values(|s: LatGraphSettings| s@)
}

/// The mathematical model of the sender loop's state.
pub struct SenderView {
    /// The snapshot the loop works from.
    pub settings: SettingsView,
    /// Whether a probe ever left for the present remote host.
    pub valid_remote: bool,
    /// When the next probe is due.
    pub next_ping: Timestamp,
    /// The sequence number of the next probe.
    pub ping_id: u64,
}

impl SenderView {
    /// The state in which the loop starts at `now`: paused, nothing sent.
    pub open spec fn initial(now: Timestamp) -> SenderView {
        SenderView {
            settings: SettingsView::initial(),
            valid_remote: false,
            next_ping: now,
            ping_id: 0,
        }
    }

    /// What the loop does when nothing else is pending: probe if it is
    /// running, wait for settings if it is not.
    pub open spec fn pending_action(self) -> SenderAction {
        if self.settings.running {
            SenderAction::Transmit { seq: self.ping_id }
        } else {
            SenderAction::AwaitSettings
        }
    }

    /// The state with probing switched off.
    pub open spec fn stopped(self) -> SenderView {
        SenderView { settings: SettingsView { running: false, ..self.settings }, ..self }
    }

    /// The state after `event`, which the loop met at `now`.
    pub open spec fn after(self, event: SenderEvent, now: Timestamp) -> SenderView {
        match event {
            SenderEvent::Delivered => SenderView {
                valid_remote: true,
                next_ping: paced(self.next_ping, self.settings.delay, now),
                ping_id: following(self.ping_id),
                ..self
            },
            SenderEvent::ReconnectFailed => if self.valid_remote {
                SenderView {
                    next_ping: advanced(now, backoff()),
                    ping_id: following(self.ping_id),
                    ..self
                }
            } else {
                SenderView { ping_id: following(self.ping_id), ..self.stopped() }
            },
            SenderEvent::ConnectFailed => self.stopped(),
            SenderEvent::TransmitFailed => self,
            SenderEvent::Connected => self,
            SenderEvent::Reported => self,
            SenderEvent::Closed => self,
        }
    }

    /// What the loop has to do after `event`, which it met at `now`.
    pub open spec fn response(self, event: SenderEvent, now: Timestamp) -> SenderAction {
        match event {
            SenderEvent::Delivered => SenderAction::SleepUntil(self.after(event, now).next_ping),
            SenderEvent::TransmitFailed => SenderAction::Reconnect { seq: self.ping_id },
            SenderEvent::ReconnectFailed => if self.valid_remote {
                SenderAction::SleepUntil(advanced(now, backoff()))
            } else {
                SenderAction::ReportFatal(AppError::HostResolution)
            },
            SenderEvent::ConnectFailed => SenderAction::ReportFatal(AppError::HostResolution),
            SenderEvent::Connected => self.pending_action(),
            SenderEvent::Reported => self.pending_action(),
            SenderEvent::Closed => SenderAction::Exit,
        }
    }

    /// Whether taking in `drained` calls for connecting the socket anew: the
    /// remote host changed somewhere along the run, and the newest snapshot
    /// names one.
    pub open spec fn reconnects(self, drained: Seq<SettingsView>) -> bool {
        &&& drained.len() > 0
        &&& remote_changed(self.settings.remote_host, drained, drained.len() as int)
        &&& drained.last().remote_host.len() > 0
    }

    /// The state after the snapshots `drained` arrived, oldest first: the
    /// newest replaces the one in use, probing stops if it names no remote
    /// host, and a remote host that is to be connected anew has not answered
    /// yet.
    pub open spec fn after_settings(self, drained: Seq<SettingsView>) -> SenderView {
        if drained.len() == 0 {
            self
        } else {
            SenderView {
                settings: drained.last().runnable(),
                valid_remote: self.valid_remote && !self.reconnects(drained),
                ..self
            }
        }
    }

    /// What the loop has to do after the snapshots `drained` arrived.
    pub open spec fn settings_response(self, drained: Seq<SettingsView>) -> SenderAction {
        if self.reconnects(drained) {
            SenderAction::Connect
        } else {
            self.after_settings(drained).pending_action()
        }
    }
}

/// The state of the sender loop.
#[derive(Debug)]
pub struct Sender {
    settings: LatGraphSettings,
    valid_remote: bool,
    next_ping: Timestamp,
    ping_id: u64,
}

impl View for Sender {
    type V = SenderView;

    closed spec fn view(&self) -> SenderView {
        SenderView {
            settings: self.settings@,
            valid_remote: self.valid_remote,
            next_ping: self.next_ping,
            ping_id: self.ping_id,
        }
    }
}

/// When the next probe is due after a cycle that ended at `now`.
pub fn next_probe_time(previous: Timestamp, delay: Interval, now: Timestamp) -> (due: Timestamp)
    ensures
        due == paced(previous, delay, now),
{
    let target = previous.saturating_add(delay);
    if target.nanos < now.nanos {
        now.saturating_add(delay)
    } else {
        target
    }
}

/// The sequence number of the probe after `seq`.
pub fn next_sequence(seq: u64) -> (next: u64)
    ensures
        next == following(seq),
{
    if seq == u64::MAX {
        0
    } else {
        seq + 1
    }
}

impl Sender {
    /// The state of a loop that starts at `now`.
    pub fn new(now: Timestamp) -> (sender: Sender)
        ensures
            sender@ == SenderView::initial(now),
    {
        Sender {
            settings: LatGraphSettings::default(),
            valid_remote: false,
            next_ping: now,
            ping_id: 0,
        }
    }

    /// The snapshot the loop works from.
    pub fn settings(&self) -> (settings: &LatGraphSettings)
        ensures
            settings@ == self@.settings,
    {
        &self.settings
    }

    /// The address to connect the socket to: the remote host of the snapshot
    /// in use, with the echo port if it names none.
    pub fn remote_address(&self) -> (address: String)
        ensures
            address@ == with_echo_port(self@.settings.remote_host),
    {
        remote_address(self.settings.remote_host.as_str())
    }

    /// What the loop does when nothing else is pending.
    pub fn next_action(&self) -> (action: SenderAction)
        ensures
            action == self@.pending_action(),
    {
        if self.settings.running {
            SenderAction::Transmit { seq: self.ping_id }
        } else {
            SenderAction::AwaitSettings
        }
    }

    /// Takes in what the outside work ended in at `now`, and says what to do next.
    pub fn handle(&mut self, event: SenderEvent, now: Timestamp) -> (action: SenderAction)
        ensures
            final(self)@ == old(self)@.after(event, now),
            action == old(self)@.response(event, now),
    {
        match event {
            SenderEvent::Delivered => {
                self.valid_remote = true;
                self.ping_id = next_sequence(self.ping_id);
                self.next_ping = next_probe_time(self.next_ping, self.settings.delay, now);
                SenderAction::SleepUntil(self.next_ping)
            },
            SenderEvent::TransmitFailed => SenderAction::Reconnect { seq: self.ping_id },
            SenderEvent::ReconnectFailed => {
                self.ping_id = next_sequence(self.ping_id);
                if self.valid_remote {
                    self.next_ping = now.saturating_add(Interval::from_secs(RETRY_BACKOFF_SECS));
                    SenderAction::SleepUntil(self.next_ping)
                } else {
                    self.settings.running = false;
                    SenderAction::ReportFatal(AppError::HostResolution)
                }
            },
            SenderEvent::ConnectFailed => {
                self.settings.running = false;
                SenderAction::ReportFatal(AppError::HostResolution)
            },
            SenderEvent::Connected => self.next_action(),
            SenderEvent::Reported => self.next_action(),
            SenderEvent::Closed => SenderAction::Exit,
        }
    }

    /// Takes in the snapshots that the foreground sent since the last time,
    /// oldest first, and says what to do next.
    pub fn settings_drained(&mut self, drained: Vec<LatGraphSettings>) -> (action: SenderAction)
        ensures
            final(self)@ == old(self)@.after_settings(views(drained@)),
            action == old(self)@.settings_response(views(drained@)),
    {
        let mut drained = drained;
        let ghost all = views(drained@);
        let ghost current = self.settings@.remote_host;
        let count: usize = drained.len();
        let mut changed = false;
        let mut i: usize = 0;
        while i < count
            invariant
                i <= count,
                count == drained.len(),
                all == views(drained@),
                current == self.settings@.remote_host,
                changed == remote_changed(current, all, i as int),
            decreases count - i,
        {
            let differs = if i == 0 {
                drained[0].remote_host != self.settings.remote_host
            } else {
                drained[i].remote_host != drained[i - 1].remote_host
            };
            assert(differs == host_differs(current, all, i as int));
            changed = changed || differs;
            i = i + 1;
        }
        match drained.pop() {
            None => self.next_action(),
            Some(latest) => {
                assert(latest@ == all.last());
                let reconnect = changed && latest.has_remote();
                self.settings = latest;
                self.settings.restrict_running();
                if reconnect {
                    self.valid_remote = false;
                    SenderAction::Connect
                } else {
                    self.next_action()
                }
            },
        }
    }
}

} // verus!
