//! The decisions of the reply listener.
//!
//! The listener's loop does the outside work: it waits on the socket and
//! hands events to the foreground. After each piece of it, [`listen_step`]
//! says what to do next. The remote host is not trusted: whatever it sends,
//! and whatever the socket reports, the listener goes on listening. It
//! leaves only when the foreground is gone.

use crate::event::Event;
use crate::time::Timestamp;
use crate::wire::ByteOrder;
use vstd::prelude::*;

verus! {

/// What the outside work of the listener ended in.
pub enum ListenerEvent<'a> {
    /// The socket handed over a datagram.
    Datagram(&'a [u8]),
    /// The socket reported an error.
    ReceiveFailed,
    /// The foreground took the event.
    Forwarded,
    /// The foreground is gone.
    ConsumerGone,
}

/// What the listener has to do next.
#[derive(Copy, Clone, Debug, PartialEq, Eq, Structural)]
pub enum ListenerAction {
    /// Wait on the socket.
    Listen,
    /// Hand this event to the foreground.
    Forward(Event),
    /// Leave the loop.
    Exit,
}

/// What the listener has to do after `event`, which it met at `now`: a
/// datagram that is a reply is forwarded with the time of its arrival, the
/// loss of the foreground ends the loop, and after anything else the listener
/// waits on the socket again.
pub open spec fn listener_response(
    order: ByteOrder,
    event: ListenerEvent<'_>,
    now: Timestamp,
) -> ListenerAction {
    match event {
        ListenerEvent::Datagram(datagram) => match order.reading(datagram@) {
            Some(seq) => ListenerAction::Forward(Event::Pong(seq, now)),
            None => ListenerAction::Listen,
        },
        ListenerEvent::ReceiveFailed => ListenerAction::Listen,
        ListenerEvent::Forwarded => ListenerAction::Listen,
        ListenerEvent::ConsumerGone => ListenerAction::Exit,
    }
}

/// Takes in what the outside work ended in at `now`, and says what to do next.
pub fn listen_step(
    order: ByteOrder,
    event: ListenerEvent<'_>,
    now: Timestamp,
) -> (action: ListenerAction)
    ensures
        action == listener_response(order, event, now),
        action is Exit <==> event is ConsumerGone,
{
    match event {
        ListenerEvent::Datagram(datagram) => match order.decode(datagram) {
            Some(seq) => ListenerAction::Forward(Event::Pong(seq, now)),
            None => ListenerAction::Listen,
        },
        ListenerEvent::ReceiveFailed => ListenerAction::Listen,
        ListenerEvent::Forwarded => ListenerAction::Listen,
        ListenerEvent::ConsumerGone => ListenerAction::Exit,
    }
}

/// Nothing that comes from the network ends the listener: after a datagram of
/// any content and length, and after any error of the socket, it listens
/// again or forwards a reply.
pub proof fn lemma_network_never_stops_listener(
    order: ByteOrder,
    datagram: &[u8],
    now: Timestamp,
)
    ensures
        !(listener_response(order, ListenerEvent::Datagram(datagram), now) is Exit),
        listener_response(order, ListenerEvent::ReceiveFailed, now) == ListenerAction::Listen,
        listener_response(order, ListenerEvent::Datagram(datagram), now) is Forward
            <==> datagram@.len() == 8,
{
}

} // verus!
