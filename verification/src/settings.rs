//! The settings snapshot that the foreground hands to the sender loop.

use crate::time::{Interval, NANOS_PER_MILLI};
use vstd::prelude::*;
use vstd::string::*;

verus! {

/// The zoom level of both axes before the user changes it.
pub const ZOOM_DEFAULT: u16 = 8;

/// The delay between probes before the user changes it, in milliseconds.
pub const DELAY_DEFAULT_MILLIS: u64 = 100;

/// What the user asked for: whether to probe, whom, how the graph is zoomed,
/// and how long to wait between probes.
#[derive(Debug, Hash)]
pub struct LatGraphSettings {
    /// Whether probes are being sent.
    pub running: bool,
    /// The echo server, as `host` or `host:port`; empty if none is set.
    pub remote_host: String,
    /// The zoom levels of the time axis and of the latency axis.
    pub zoom: (u16, u16),
    /// The time between two probes.
    pub delay: Interval,
}

/// The mathematical model of a settings snapshot.
pub struct SettingsView {
    /// Whether probes are being sent.
    pub running: bool,
    /// The echo server, as `host` or `host:port`; empty if none is set.
    pub remote_host: Seq<char>,
    /// The zoom levels of the time axis and of the latency axis.
    pub zoom: (u16, u16),
    /// The time between two probes.
    pub delay: Interval,
}

/// The address to connect to for `host`: the host itself if it names a port,
/// else the host with the echo port.
pub open spec fn with_echo_port(host: Seq<char>) -> Seq<char> {
    if host.contains(':') {
        host
    } else {
        host + ":7"@
    }
}

/// The address to connect to for `host`: a host without a port gets the echo port.
pub fn remote_address(host: &str) -> (address: String)
    ensures
        address@ == with_echo_port(host@),
{
    let len: usize = host.unicode_len();
    let mut found = false;
    let mut i: usize = 0;
    while i < len
        invariant
            i <= len,
            len == host@.len(),
            found == exists|j: int| 0 <= j < i && #[trigger] host@[j] == ':',
        decreases len - i,
    {
        if host.get_char(i) == ':' {
            found = true;
        }
        i = i + 1;
    }
    let address = String::from_str(host);
    if found {
        address
    } else {
        address.concat(":7")
    }
}

impl SettingsView {
    /// The snapshot with which every session starts: paused, no remote host.
    pub open spec fn initial() -> SettingsView {
        SettingsView {
            running: false,
            remote_host: Seq::empty(),
            zoom: (ZOOM_DEFAULT, ZOOM_DEFAULT),
            delay: Interval { nanos: (DELAY_DEFAULT_MILLIS * NANOS_PER_MILLI) as u128 },
        }
    }

    /// Whether a request to run, or to pause, changes the snapshot: it must
    /// differ from the present state, and running needs a remote host.
    pub open spec fn accepts_running(self, running: bool) -> bool {
        running != self.running && (!running || self.remote_host.len() > 0)
    }

    /// The snapshot with probing switched off if there is no remote host.
    pub open spec fn runnable(self) -> SettingsView {
        SettingsView { running: self.running && self.remote_host.len() > 0, ..self }
    }

    /// The snapshot after the command line had its say: a remote host and a
    /// delay in milliseconds replace the stored ones where given, either of
    /// the flags `paused` and `running` decides whether to probe, and probing
    /// needs a remote host.
    pub open spec fn overridden(
        self,
        remote: Option<Seq<char>>,
        delay_millis: Option<u64>,
        paused: bool,
        running: bool,
    ) -> SettingsView {
        SettingsView {
            running: if paused || running {
                running
            } else {
                self.running
            },
            remote_host: match remote {
                Some(host) => host,
                None => self.remote_host,
            },
            zoom: self.zoom,
            delay: match delay_millis {
                Some(millis) => Interval { nanos: (millis * NANOS_PER_MILLI) as u128 },
                None => self.delay,
            },
        }.runnable()
    }
}

impl View for LatGraphSettings {
    type V = SettingsView;

    open spec fn view(&self) -> SettingsView {
        SettingsView {
            running: self.running,
            remote_host: self.remote_host@,
            zoom: self.zoom,
            delay: self.delay,
        }
    }
}

impl Clone for LatGraphSettings {
    fn clone(&self) -> (copy: Self)
        ensures
            copy@ == self@,
    {
        LatGraphSettings {
            running: self.running,
            remote_host: self.remote_host.clone(),
            zoom: self.zoom,
            delay: self.delay,
        }
    }
}

impl Default for LatGraphSettings {
    fn default() -> (settings: Self)
        ensures
            settings@ == SettingsView::initial(),
    {
        LatGraphSettings {
            running: false,
            remote_host: String::new(),
            zoom: (ZOOM_DEFAULT, ZOOM_DEFAULT),
            delay: Interval::from_millis(DELAY_DEFAULT_MILLIS),
        }
    }
}

impl LatGraphSettings {
    /// Whether a remote host is set.
    pub fn has_remote(&self) -> (has: bool)
        ensures
            has == (self@.remote_host.len() > 0),
    {
        !self.remote_host.as_str().is_empty()
    }

    /// Switches probing on or off if that is a change and, for switching on,
    /// a remote host is set. Says whether the snapshot changed, which is when
    /// it has to be handed to the sender loop.
    pub fn set_running(&mut self, running: bool) -> (changed: bool)
        ensures
            changed == old(self)@.accepts_running(running),
            changed ==> final(self)@ == (SettingsView { running, ..old(self)@ }),
            !changed ==> final(self)@ == old(self)@,
    {
        if running != self.running && (!running || self.has_remote()) {
            self.running = running;
            true
        } else {
            false
        }
    }

    /// Switches probing to the other state, under the rule of `set_running`.
    pub fn toggle_running(&mut self) -> (changed: bool)
        ensures
            changed == old(self)@.accepts_running(!old(self)@.running),
            changed ==> final(self)@ == (SettingsView { running: !old(self)@.running, ..old(self)@ }),
            !changed ==> final(self)@ == old(self)@,
    {
        let wanted = !self.running;
        self.set_running(wanted)
    }

    /// Switches probing off if there is no remote host to probe.
    pub fn restrict_running(&mut self)
        ensures
            final(self)@ == old(self)@.runnable(),
    {
        let has = self.has_remote();
        self.running = self.running && has;
    }

    /// Applies what the command line gave to a stored snapshot.
    pub fn with_overrides(
        self,
        remote: Option<String>,
        delay_millis: Option<u64>,
        paused: bool,
        running: bool,
    ) -> (settings: LatGraphSettings)
        ensures
            settings@ == self@.overridden(
                match remote {
                    Some(host) => Some(host@),
                    None => None,
                },
                delay_millis,
                paused,
                running,
            ),
    {
        let mut settings = self;
        if let Some(host) = remote {
            settings.remote_host = host;
        }
        if let Some(millis) = delay_millis {
            settings.delay = Interval::from_millis(millis);
        }
        if paused || running {
            settings.running = running;
        }
        settings.restrict_running();
        settings
    }
}

} // verus!
