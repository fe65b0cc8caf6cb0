//! The sample history: a fixed-capacity ring of probe records addressed by
//! sequence number.
//!
//! The mathematical model of a buffer is a [`History`]: the sequence number of
//! its oldest record, the live records from oldest to newest, and the
//! capacity. Every contract of [`RingBuffer`] is stated over that model; the
//! wrap-around of the backing storage never shows in it.

use crate::time::{elapsed_millis, Timestamp};
use std::marker::PhantomData;
use vstd::arithmetic::div_mod::lemma_fundamental_div_mod;
use vstd::prelude::*;

verus! {

/// One probe: sent and unanswered, or answered with its latency in milliseconds.
#[derive(Copy, Clone, Debug, PartialEq, Eq, Structural)]
pub enum Ping {
    /// Sent at this time, no reply yet.
    Sent(Timestamp),
    /// Sent at this time and answered after this many milliseconds.
    Received(Timestamp, u128),
}

impl Ping {
    /// When the probe was sent, whichever state the record is in.
    pub open spec fn sent_at(self) -> Timestamp {
        match self {
            Ping::Sent(time) => time,
            Ping::Received(time, _) => time,
        }
    }

    /// The record once a reply has arrived at `time`: an unanswered probe
    /// becomes answered with the elapsed milliseconds, an answered one stays
    /// as it is.
    pub open spec fn completed(self, time: Timestamp) -> Ping {
        match self {
            Ping::Sent(sent) => Ping::Received(sent, elapsed_millis(sent, time) as u128),
            Ping::Received(_, _) => self,
        }
    }

    /// When the probe was sent.
    pub fn sent_time(&self) -> (time: Timestamp)
        ensures
            time == self.sent_at(),
    {
        match self {
            Ping::Sent(time) => *time,
            Ping::Received(time, _) => *time,
        }
    }
}

/// What a reply did to the history.
#[derive(Copy, Clone, Debug, PartialEq, Eq, Structural)]
pub enum Completion {
    /// The probe was unanswered; it now carries this latency in milliseconds.
    Completed(u128),
    /// The probe had been answered before; nothing changed.
    Duplicate,
    /// The probe has left the history; nothing changed.
    Evicted,
}

/// Why the history refused a request.
#[derive(Copy, Clone, Debug, PartialEq, Eq, Structural)]
pub enum HistoryError {
    /// A reply named a sequence number that no probe has been given yet.
    NotYetSent,
    /// A sequence number outside the live range was read.
    OutOfRange,
}

/// One operation on a history.
pub enum Step {
    /// A probe left at this time.
    Sent(Timestamp),
    /// The reply to the probe with this sequence number arrived at this time.
    Received(u64, Timestamp),
}

/// The mathematical model of a sample history.
pub struct History {
    /// Sequence number of the oldest live record.
    pub start: nat,
    /// The live records, oldest first.
    pub records: Seq<Ping>,
    /// The most records the history keeps.
    pub capacity: nat,
}

impl History {
    /// The history before the first probe.
    pub open spec fn empty(capacity: nat) -> History {
        History { start: 0, records: Seq::empty(), capacity }
    }

    /// Whether the history is within its capacity.
    pub open spec fn valid(self) -> bool {
        self.records.len() <= self.capacity
    }

    /// The sequence number that the next probe gets.
    pub open spec fn end(self) -> nat {
        self.start + self.records.len()
    }

    /// Whether `seq` names a live record.
    pub open spec fn holds(self, seq: int) -> bool {
        self.start <= seq < self.end()
    }

    /// The live record with sequence number `seq`.
    pub open spec fn record(self, seq: int) -> Ping
        recommends
            self.holds(seq),
    {
        self.records[seq - self.start]
    }

    /// The live records, each with its sequence number, oldest first.
    pub open spec fn entries(self) -> Seq<(u64, Ping)> {
        Seq::new(self.records.len(), |i: int| ((self.start + i) as u64, self.records[i]))
    }

    /// The history after a probe sent at `time`: the record is appended, and
    /// the oldest one leaves if the history was full.
    pub open spec fn after_sent(self, time: Timestamp) -> History {
        if self.records.len() < self.capacity {
            History { records: self.records.push(Ping::Sent(time)), ..self }
        } else {
            History {
                start: self.start + 1,
                records: self.records.push(Ping::Sent(time)).drop_first(),
                capacity: self.capacity,
            }
        }
    }

    /// The history after a reply for `seq` that arrived at `time`: the named
    /// record is completed if it is live, and nothing else changes.
    pub open spec fn after_received(self, seq: int, time: Timestamp) -> History {
        if self.holds(seq) {
            History {
                records: self.records.update(seq - self.start, self.record(seq).completed(time)),
                ..self
            }
        } else {
            self
        }
    }

    /// What a reply for `seq` that arrives at `time` is answered with.
    pub open spec fn reception(self, seq: int, time: Timestamp) -> Result<
        Completion,
        HistoryError,
    > {
        if seq >= self.end() {
            Err(HistoryError::NotYetSent)
        } else if seq < self.start {
            Ok(Completion::Evicted)
        } else {
            match self.record(seq) {
                Ping::Sent(sent) => Ok(Completion::Completed(elapsed_millis(sent, time) as u128)),
                Ping::Received(_, _) => Ok(Completion::Duplicate),
            }
        }
    }

    /// The history after `step`.
    pub open spec fn after(self, step: Step) -> History {
        match step {
            Step::Sent(time) => self.after_sent(time),
            Step::Received(seq, time) => self.after_received(seq as int, time),
        }
    }

    /// The history after `steps`, applied first to last.
    pub open spec fn after_all(self, steps: Seq<Step>) -> History
        decreases steps.len(),
    {
        if steps.len() == 0 {
            self
        } else {
            self.after_all(steps.drop_last()).after(steps.last())
        }
    }

    /// The history after one probe at each of `times`, applied first to last.
    pub open spec fn after_sends(self, times: Seq<Timestamp>) -> History
        decreases times.len(),
    {
        if times.len() == 0 {
            self
        } else {
            self.after_sends(times.drop_last()).after_sent(times.last())
        }
    }
}

/// How a record may differ between an earlier and a later history: it keeps
/// its send time, and once answered it does not change at all.
pub open spec fn settled(before: Ping, after: Ping) -> bool {
    &&& after.sent_at() == before.sent_at()
    &&& before is Received ==> after == before
    &&& after is Sent ==> before is Sent
}

/// The records of one probe at each of `times`, all unanswered.
pub open spec fn unanswered(times: Seq<Timestamp>) -> Seq<Ping> {
    Seq::new(times.len(), |i: int| Ping::Sent(times[i]))
}

proof fn lemma_distinct_slots(x: int, y: int, c: int)
    requires
        c > 0,
        0 <= x < y < x + c,
    ensures
        x % c != y % c,
{
    if x % c == y % c {
        lemma_fundamental_div_mod(x, c);
        lemma_fundamental_div_mod(y, c);
        let k = y / c - x / c;
        assert(y - x == c * k) by (nonlinear_arith)
            requires
                x == c * (x / c) + x % c,
                y == c * (y / c) + y % c,
                x % c == y % c,
                k == y / c - x / c,
        ;
        assert(false) by (nonlinear_arith)
            requires
                y - x == c * k,
                0 < y - x < c,
        ;
    }
}

/// A fixed-capacity history of probe records, addressed by sequence number.
#[derive(Debug)]
pub struct RingBuffer {
    data: Vec<Ping>,
    start_index: u64,
    capacity: usize,
}

impl View for RingBuffer {
    type V = History;

    closed spec fn view(&self) -> History {
        History {
            start: self.start_index as nat,
            records: Seq::new(
                self.data.len() as nat,
                |i: int| self.data@[self.slot(self.start_index + i)],
            ),
            capacity: self.capacity as nat,
        }
    }
}

impl RingBuffer {
    /// Where the record with sequence number `seq` lies in the backing storage.
    spec fn slot(&self, seq: int) -> int {
        if self.capacity == 0 {
            0
        } else {
            seq % (self.capacity as int)
        }
    }

    /// The storage never exceeds the capacity, nothing is evicted before the
    /// storage is full, and every live sequence number fits in 64 bits.
    pub closed spec fn well_formed(&self) -> bool {
        &&& self.data.len() <= self.capacity
        &&& self.data.len() < self.capacity ==> self.start_index == 0
        &&& self.start_index + self.data.len() <= u64::MAX
    }

    proof fn lemma_slot_in_storage(&self, seq: int)
        requires
            self.well_formed(),
            self@.holds(seq),
        ensures
            0 <= self.slot(seq) < self.data.len(),
            self@.record(seq) == self.data@[self.slot(seq)],
    {
        let c = self.capacity as int;
        if self.data.len() < self.capacity {
            assert(seq % c == seq) by (nonlinear_arith)
                requires
                    0 <= seq < c,
            ;
        } else {
            assert(0 <= seq % c < c) by (nonlinear_arith)
                requires
                    c > 0,
            ;
        }
    }

    proof fn lemma_slots_differ(&self, a: int, b: int)
        requires
            self.well_formed(),
            self@.holds(a),
            self@.holds(b),
            a != b,
        ensures
            self.slot(a) != self.slot(b),
    {
        let c = self.capacity as int;
        if a < b {
            lemma_distinct_slots(a, b, c);
        } else {
            lemma_distinct_slots(b, a, c);
        }
    }

    /// The model of a well-formed buffer is within its capacity, and its
    /// sequence numbers fit in 64 bits.
    pub proof fn lemma_view_valid(&self)
        requires
            self.well_formed(),
        ensures
            self@.valid(),
            self@.end() <= u64::MAX,
    {
    }

    /// An empty history that keeps the newest `size` probes.
    pub fn new(size: usize) -> (buffer: RingBuffer)
        ensures
            buffer.well_formed(),
            buffer@ == History::empty(size as nat),
    {
        let buffer = RingBuffer { data: Vec::new(), start_index: 0, capacity: size };
        assert(buffer@.records =~= Seq::empty());
        buffer
    }

    /// The sequence number of the oldest live record.
    pub fn get_start_index(&self) -> (start: u64)
        ensures
            start == self@.start,
    {
        self.start_index
    }

    /// The sequence number that the next probe gets.
    pub fn get_end_index(&self) -> (end: u64)
        requires
            self.well_formed(),
        ensures
            end == self@.end(),
    {
        self.start_index + self.data.len() as u64
    }

    /// The number of live records.
    pub fn len(&self) -> (len: usize)
        ensures
            len == self@.records.len(),
    {
        self.data.len()
    }

    /// The most records the history keeps.
    pub fn capacity(&self) -> (capacity: usize)
        ensures
            capacity == self@.capacity,
    {
        self.capacity
    }

    /// Records a probe sent at `time` and returns its sequence number. A full
    /// history first lets its oldest record go.
    pub fn sent(&mut self, time: Timestamp) -> (seq: u64)
        requires
            old(self).well_formed(),
            old(self)@.end() < u64::MAX,
        ensures
            final(self).well_formed(),
            final(self)@ == old(self)@.after_sent(time),
            seq == old(self)@.end(),
            final(self)@.end() == old(self)@.end() + 1,
    {
        let len: usize = self.data.len();
        let seq: u64 = self.start_index + len as u64;
        if len < self.capacity {
            self.data.push(Ping::Sent(time));
            proof {
                let c = self.capacity as int;
                assert forall|i: int| 0 <= i < len + 1 implies #[trigger] (i % c) == i by {
                    assert(i % c == i) by (nonlinear_arith)
                        requires
                            0 <= i < c,
                    ;
                }
                assert(self@.records =~= old(self)@.records.push(Ping::Sent(time)));
            }
        } else if self.capacity == 0 {
            self.start_index = self.start_index + 1;
            assert(self@.records =~= old(self)@.records.push(Ping::Sent(time)).drop_first());
        } else {
            let slot: usize = (seq % (self.capacity as u64)) as usize;
            self.data.set(slot, Ping::Sent(time));
            self.start_index = self.start_index + 1;
            proof {
                let c = self.capacity as int;
                let start = old(self).start_index as int;
                let wanted = old(self)@.records.push(Ping::Sent(time)).drop_first();
                assert forall|i: int| 0 <= i < c implies self@.records[i] == wanted[i] by {
                    if i < c - 1 {
                        lemma_distinct_slots(start + 1 + i, start + c, c);
                    }
                }
                assert(self@.records =~= wanted);
            }
        }
        seq
    }

    /// Records the reply for probe `id` that arrived at `rcv_time`.
    ///
    /// An unanswered live probe becomes answered with its latency. A reply for
    /// an answered probe, or for one that has left the history, changes
    /// nothing. A reply for a probe that was never sent changes nothing and is
    /// an error.
    pub fn received(&mut self, id: u64, rcv_time: Timestamp) -> (outcome: Result<
        Completion,
        HistoryError,
    >)
        requires
            old(self).well_formed(),
        ensures
            final(self).well_formed(),
            final(self)@ == old(self)@.after_received(id as int, rcv_time),
            outcome == old(self)@.reception(id as int, rcv_time),
            !old(self)@.holds(id as int) ==> final(self)@ == old(self)@,
            outcome is Err <==> id >= old(self)@.end(),
    {
        let end: u64 = self.start_index + self.data.len() as u64;
        if id >= end {
            Err(HistoryError::NotYetSent)
        } else if id < self.start_index {
            Ok(Completion::Evicted)
        } else {
            proof {
                self.lemma_slot_in_storage(id as int);
            }
            let slot: usize = (id % (self.capacity as u64)) as usize;
            match self.data[slot] {
                Ping::Sent(snd_time) => {
                    let lat: u128 = rcv_time.saturating_duration_since(snd_time).as_millis();
                    self.data.set(slot, Ping::Received(snd_time, lat));
                    proof {
                        let before = old(self)@;
                        let wanted = before.records.update(
                            id - before.start,
                            before.record(id as int).completed(rcv_time),
                        );
                        assert forall|i: int| 0 <= i < before.records.len() implies self@.records[i]
                            == wanted[i] by {
                            old(self).lemma_slot_in_storage(before.start + i);
                            if i != id - before.start {
                                old(self).lemma_slots_differ(before.start + i, id as int);
                            }
                        }
                        assert(self@.records =~= wanted);
                    }
                    Ok(Completion::Completed(lat))
                },
                Ping::Received(_, _) => {
                    proof {
                        let before = old(self)@;
                        assert(before.records.update(id - before.start, before.record(id as int))
                            =~= before.records);
                    }
                    Ok(Completion::Duplicate)
                },
            }
        }
    }

    /// The live records, oldest first.
    pub fn get_data(&self) -> (records: Vec<Ping>)
        requires
            self.well_formed(),
        ensures
            records@ == self@.records,
    {
        let len: usize = self.data.len();
        let mut records: Vec<Ping> = Vec::new();
        let mut i: usize = 0;
        while i < len
            invariant
                self.well_formed(),
                len == self.data.len(),
                i <= len,
                records@ == self@.records.subrange(0, i as int),
            decreases len - i,
        {
            records.push(self.fetch(self.start_index + i as u64));
            assert(records@ =~= self@.records.subrange(0, i + 1));
            i = i + 1;
        }
        assert(records@ =~= self@.records);
        records
    }

    /// The place in the backing storage of the live record `i`, if there is one.
    fn buffer_index(&self, i: u64) -> (slot: Option<usize>)
        requires
            self.well_formed(),
        ensures
            slot is Some <==> self@.holds(i as int),
            slot matches Some(s) ==> s < self.data.len() && self.data@[s as int] == self@.record(
                i as int,
            ),
    {
        if i < self.start_index || i - self.start_index >= self.data.len() as u64 {
            None
        } else {
            proof {
                self.lemma_slot_in_storage(i as int);
            }
            Some((i % (self.capacity as u64)) as usize)
        }
    }

    /// The live record with sequence number `i`; an error outside the live range.
    pub fn index(&self, i: u64) -> (record: Result<Ping, HistoryError>)
        requires
            self.well_formed(),
        ensures
            self@.holds(i as int) ==> record == Ok::<Ping, HistoryError>(self@.record(i as int)),
            !self@.holds(i as int) ==> record == Err::<Ping, HistoryError>(
                HistoryError::OutOfRange,
            ),
    {
        match self.buffer_index(i) {
            Some(slot) => Ok(self.data[slot]),
            None => Err(HistoryError::OutOfRange),
        }
    }

    /// The live record with sequence number `i`.
    fn fetch(&self, i: u64) -> (record: Ping)
        requires
            self.well_formed(),
            self@.holds(i as int),
        ensures
            record == self@.record(i as int),
    {
        proof {
            self.lemma_slot_in_storage(i as int);
        }
        self.data[(i % (self.capacity as u64)) as usize]
    }

    /// A cursor over the live records, oldest first.
    pub fn iter(&self) -> (cursor: RingBufferIter<'_, Ping>)
        requires
            self.well_formed(),
        ensures
            cursor.well_formed(),
            cursor.pending() == self@.entries(),
    {
        let cursor = RingBufferIter {
            buf: self,
            index: self.start_index,
            reverse: false,
            iter_type: PhantomData,
        };
        assert(cursor.pending() =~= self@.entries());
        cursor
    }

    /// A cursor over the live records, newest first.
    pub fn iter_rev(&self) -> (cursor: RingBufferIter<'_, Ping>)
        requires
            self.well_formed(),
        ensures
            cursor.well_formed(),
            cursor.pending() == self@.entries().reverse(),
    {
        let cursor = RingBufferIter {
            buf: self,
            index: self.start_index + self.data.len() as u64,
            reverse: true,
            iter_type: PhantomData,
        };
        assert(cursor.pending() =~= self@.entries().reverse());
        cursor
    }
}

/// A cursor over a history, in either direction. `T` is what a step hands
/// out: the record, or the record with its sequence number.
pub struct RingBufferIter<'a, T> {
    buf: &'a RingBuffer,
    index: u64,
    reverse: bool,
    iter_type: PhantomData<T>,
}

impl<'a, T> RingBufferIter<'a, T> {
    /// The cursor stands within the live range of a well-formed history.
    pub closed spec fn well_formed(&self) -> bool {
        &&& self.buf.well_formed()
        &&& self.buf@.start <= self.index <= self.buf@.end()
    }

    /// What the cursor has yet to hand out, in the order in which it will.
    pub closed spec fn pending(&self) -> Seq<(u64, Ping)> {
        let history = self.buf@;
        if self.reverse {
            Seq::new(
                (self.index - history.start) as nat,
                |i: int| ((self.index - 1 - i) as u64, history.record(self.index - 1 - i)),
            )
        } else {
            Seq::new(
                (history.end() - self.index) as nat,
                |i: int| ((self.index + i) as u64, history.record(self.index + i)),
            )
        }
    }

    /// Moves the cursor one record on and hands out that record with its
    /// sequence number, or stays where it is at the end.
    fn advance(&mut self) -> (item: Option<(u64, Ping)>)
        requires
            old(self).well_formed(),
        ensures
            final(self).well_formed(),
            old(self).pending().len() == 0 ==> item is None && final(self).pending() == old(self).pending(),
            old(self).pending().len() > 0 ==> item == Some(old(self).pending()[0]) && final(self).pending() == old(self).pending().drop_first(),
    {
        let end: u64 = self.buf.get_end_index();
        if !self.reverse && self.index < end {
            let seq: u64 = self.index;
            self.index = self.index + 1;
            assert(self.pending() =~= old(self).pending().drop_first());
            Some((seq, self.buf.fetch(seq)))
        } else if self.reverse && self.index > self.buf.get_start_index() {
            self.index = self.index - 1;
            let seq: u64 = self.index;
            assert(self.pending() =~= old(self).pending().drop_first());
            Some((seq, self.buf.fetch(seq)))
        } else {
            None
        }
    }
}

impl<'a> RingBufferIter<'a, Ping> {
    /// The same cursor, handing out each record with its sequence number.
    pub fn with_index(self) -> (cursor: RingBufferIter<'a, (u64, Ping)>)
        requires
            self.well_formed(),
        ensures
            cursor.well_formed(),
            cursor.pending() == self.pending(),
    {
        RingBufferIter {
            buf: self.buf,
            index: self.index,
            reverse: self.reverse,
            iter_type: PhantomData,
        }
    }

    /// The next record, or `None` once all have been handed out.
    pub fn next(&mut self) -> (item: Option<Ping>)
        requires
            old(self).well_formed(),
        ensures
            final(self).well_formed(),
            old(self).pending().len() == 0 ==> item is None && final(self).pending() == old(self).pending(),
            old(self).pending().len() > 0 ==> item == Some(old(self).pending()[0].1) && final(self).pending() == old(self).pending().drop_first(),
    {
        match self.advance() {
            Some((_, ping)) => Some(ping),
            None => None,
        }
    }
}

impl<'a> RingBufferIter<'a, (u64, Ping)> {
    /// The next record with its sequence number, or `None` once all have been handed out.
    pub fn next(&mut self) -> (item: Option<(u64, Ping)>)
        requires
            old(self).well_formed(),
        ensures
            final(self).well_formed(),
            old(self).pending().len() == 0 ==> item is None && final(self).pending() == old(self).pending(),
            old(self).pending().len() > 0 ==> item == Some(old(self).pending()[0]) && final(self).pending() == old(self).pending().drop_first(),
    {
        self.advance()
    }
}

} // verus!
