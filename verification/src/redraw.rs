//! When the window lays out its widgets anew: at most once per frame, and
//! only when something asked for it.

use crate::time::{advanced, Interval, Timestamp, NANOS_PER_MILLI};
use vstd::prelude::*;

verus! {

/// The least time between two layouts, in milliseconds.
pub const REDRAW_DELAY_MILLIS: u64 = 16;

/// What kind of event the window's loop met.
#[derive(Copy, Clone, Debug, PartialEq, Eq, Structural)]
pub enum LoopEvent {
    /// The loop has just started.
    Init,
    /// The time the loop asked to be woken at has come.
    ResumeTimeReached,
    /// All events that were queued have been handled.
    MainEventsCleared,
    /// The window has to be painted.
    RedrawRequested,
    /// Anything else.
    Other,
}

/// How the window's loop waits for its next event.
#[derive(Copy, Clone, Debug, PartialEq, Eq, Structural)]
pub enum Wake {
    /// Until an event arrives.
    Wait,
    /// Until an event arrives or this time has come.
    WaitUntil(Timestamp),
}

/// What the window's loop remembers between events.
#[derive(Copy, Clone, Debug, PartialEq, Eq, Structural)]
pub struct RedrawSchedule {
    /// When the next layout is due, if one is.
    pub next_update: Option<Timestamp>,
    /// Whether an event asked for a layout since the last one.
    pub ui_update_needed: bool,
}

/// The time between two layouts.
pub open spec fn redraw_delay() -> Interval {
    Interval { nanos: (REDRAW_DELAY_MILLIS * NANOS_PER_MILLI) as u128 }
}

impl RedrawSchedule {
    /// Whether `event` is the moment to lay out the widgets: at the start of
    /// the loop, when the time asked for has come, and once the queued events
    /// are handled if a layout is wanted and none is due yet.
    pub open spec fn lays_out_on(self, event: LoopEvent) -> bool {
        match event {
            LoopEvent::Init => true,
            LoopEvent::ResumeTimeReached => true,
            LoopEvent::MainEventsCleared => self.next_update is None && self.ui_update_needed,
            LoopEvent::RedrawRequested => false,
            LoopEvent::Other => false,
        }
    }

    /// The schedule of a loop that has not started: nothing due, nothing wanted.
    pub fn new() -> (schedule: RedrawSchedule)
        ensures
            schedule.next_update is None,
            !schedule.ui_update_needed,
    {
        RedrawSchedule { next_update: None, ui_update_needed: false }
    }

    /// Takes note of whether the event just handled asked for a layout.
    pub fn note_event(&mut self, should_update_ui: bool)
        ensures
            final(self).ui_update_needed == (old(self).ui_update_needed || should_update_ui),
            final(self).next_update == old(self).next_update,
    {
        self.ui_update_needed = self.ui_update_needed || should_update_ui;
    }

    /// Whether the widgets are to be laid out on `event`.
    pub fn should_set_ui(&self, event: LoopEvent) -> (lay_out: bool)
        ensures
            lay_out == self.lays_out_on(event),
    {
        match event {
            LoopEvent::Init => true,
            LoopEvent::ResumeTimeReached => true,
            LoopEvent::MainEventsCleared => self.next_update.is_none() && self.ui_update_needed,
            LoopEvent::RedrawRequested => false,
            LoopEvent::Other => false,
        }
    }

    /// Takes note that the widgets were laid out at `now`: nothing more is
    /// wanted, and the next layout is due one frame later if this one changed
    /// what is shown, else not until an event asks for it.
    pub fn ui_was_set(&mut self, now: Timestamp, needs_redraw: bool)
        ensures
            !final(self).ui_update_needed,
            needs_redraw ==> final(self).next_update == Some(advanced(now, redraw_delay())),
            !needs_redraw ==> final(self).next_update is None,
    {
        self.ui_update_needed = false;
        if needs_redraw {
            self.next_update = Some(now.saturating_add(Interval::from_millis(REDRAW_DELAY_MILLIS)));
        } else {
            self.next_update = None;
        }
    }

    /// How the loop waits for its next event: until the next layout is due, if one is.
    pub fn wake(&self) -> (wake: Wake)
        ensures
            wake == match self.next_update {
                Some(due) => Wake::WaitUntil(due),
                None => Wake::Wait,
            },
    {
        match self.next_update {
            Some(due) => Wake::WaitUntil(due),
            None => Wake::Wait,
        }
    }
}

} // verus!
