//! The engine of a latency graph: it probes a UDP echo server at a steady
//! pace and keeps the round-trip times of the newest probes.
//!
//! The library holds what the engine decides and remembers, and leaves the
//! socket, the clock, the threads and the window to its caller:
//!
//! - [`ringbuf`]: the bounded history of probes, addressed by sequence number;
//! - [`wire`]: the eight bytes of a probe;
//! - [`sender`]: the state machine of the loop that sends the probes, with its
//!   pacing and its handling of a host that cannot be reached;
//! - [`listener`]: the decisions of the loop that waits for the replies;
//! - [`event`]: what the engine tells the foreground, and how the foreground
//!   takes it into the history;
//! - [`settings`]: the snapshot of what the user asked for;
//! - [`stats`], [`ticks`], [`graph`], [`redraw`]: the numbers behind the graph;
//! - [`time`]: points and spans on the session clock;
//! - [`history_laws`], [`sender_laws`]: what holds over any run of the above.
//!
//! Every function is verified against the contract it carries.

pub mod event;
pub mod graph;
pub mod history_laws;
pub mod listener;
pub mod redraw;
pub mod ringbuf;
pub mod sender;
pub mod sender_laws;
pub mod settings;
pub mod stats;
pub mod ticks;
pub mod time;
pub mod wire;
