//! What the engine tells the foreground, and what the foreground does with it.

use crate::ringbuf::{Completion, HistoryError, RingBuffer};
use crate::time::Timestamp;
use vstd::prelude::*;

verus! {

/// Why the engine gave up on a remote host.
#[derive(Copy, Clone, Debug, PartialEq, Eq, Structural)]
pub enum AppError {
    /// The remote host was never reached.
    HostResolution,
}

/// A notification from the engine to the foreground.
#[derive(Copy, Clone, Debug, PartialEq, Eq, Structural)]
pub enum Event {
    /// A probe left at this time.
    Ping(Timestamp),
    /// The reply to the probe with this sequence number arrived at this time.
    Pong(u64, Timestamp),
    /// The engine stopped probing.
    Error(AppError),
}

/// What an event did to the foreground's history.
#[derive(Copy, Clone, Debug, PartialEq, Eq, Structural)]
pub enum Applied {
    /// A probe was recorded under this sequence number.
    Recorded(u64),
    /// A reply was taken in, with this effect.
    Answered(Completion),
    /// A reply was refused and the history left alone.
    Refused(HistoryError),
    /// The engine reported an error; the history is untouched and the
    /// foreground should wind down.
    Fatal(AppError),
}

/// Takes one event into the history: a probe is recorded, a reply completes
/// its probe or is dropped, and an error leaves the history alone.
pub fn apply_event(history: &mut RingBuffer, event: Event) -> (applied: Applied)
    requires
        old(history).well_formed(),
        event is Ping ==> old(history)@.end() < u64::MAX,
    ensures
        final(history).well_formed(),
        match event {
            Event::Ping(time) => {
                &&& final(history)@ == old(history)@.after_sent(time)
                &&& applied == Applied::Recorded(old(history)@.end() as u64)
            },
            Event::Pong(seq, time) => {
                &&& final(history)@ == old(history)@.after_received(seq as int, time)
                &&& match old(history)@.reception(seq as int, time) {
                    Ok(completion) => applied == Applied::Answered(completion),
                    Err(error) => applied == Applied::Refused(error),
                }
            },
            Event::Error(error) => {
                &&& final(history)@ == old(history)@
                &&& applied == Applied::Fatal(error)
            },
        },
{
    match event {
        Event::Ping(time) => Applied::Recorded(history.sent(time)),
        Event::Pong(seq, time) => match history.received(seq, time) {
            Ok(completion) => Applied::Answered(completion),
            Err(error) => Applied::Refused(error),
        },
        Event::Error(error) => Applied::Fatal(error),
    }
}

} // verus!
