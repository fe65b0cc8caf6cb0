//! What holds of a sample history over any run of probes and replies.

use crate::ringbuf::{settled, unanswered, History, Ping, Step};
use crate::time::Timestamp;
use vstd::prelude::*;

verus! {

/// One step keeps the history within its capacity and never takes back a
/// sequence number: the oldest live number and the next number to give out
/// only grow, the latter by one for a probe and not at all for a reply.
pub proof fn lemma_step_advances(h: History, step: Step)
    requires
        h.valid(),
    ensures
        h.after(step).valid(),
        h.after(step).capacity == h.capacity,
        h.after(step).start >= h.start,
        step is Sent ==> h.after(step).end() == h.end() + 1,
        step is Received ==> h.after(step).end() == h.end() && h.after(step).start == h.start,
{
}

/// One step changes at most one record, and only by answering it: a probe
/// changes no record that stays live, a reply changes no record but the one
/// it names, and that one keeps its send time and, if it was answered
/// already, everything else too.
pub proof fn lemma_step_settles(h: History, step: Step, seq: int)
    requires
        h.valid(),
        h.holds(seq),
        h.after(step).holds(seq),
    ensures
        settled(h.record(seq), h.after(step).record(seq)),
        step is Sent ==> h.after(step).record(seq) == h.record(seq),
        step matches Step::Received(id, _) ==> id != seq ==> h.after(step).record(seq) == h.record(
            seq,
        ),
{
}

/// A run of steps keeps the history within its capacity and never takes back
/// a sequence number.
pub proof fn lemma_run_advances(h: History, steps: Seq<Step>)
    requires
        h.valid(),
    ensures
        h.after_all(steps).valid(),
        h.after_all(steps).capacity == h.capacity,
        h.after_all(steps).start >= h.start,
        h.after_all(steps).end() >= h.end(),
    decreases steps.len(),
{
    if steps.len() > 0 {
        lemma_run_advances(h, steps.drop_last());
        lemma_step_advances(h.after_all(steps.drop_last()), steps.last());
    }
}

/// Over any run of probes and replies, a record that is live before and after
/// keeps its send time; once it is answered it never changes again, and it
/// never goes back to unanswered. So each sequence number is answered at most
/// once.
pub proof fn lemma_answer_is_final(h: History, steps: Seq<Step>, seq: int)
    requires
        h.valid(),
        h.holds(seq),
        h.after_all(steps).holds(seq),
    ensures
        settled(h.record(seq), h.after_all(steps).record(seq)),
    decreases steps.len(),
{
    if steps.len() > 0 {
        let mid = h.after_all(steps.drop_last());
        lemma_run_advances(h, steps.drop_last());
        lemma_step_advances(mid, steps.last());
        lemma_answer_is_final(h, steps.drop_last(), seq);
        lemma_step_settles(mid, steps.last(), seq);
    }
}

/// A reply for a sequence number that is not live leaves the history as it was.
pub proof fn lemma_stray_reply_changes_nothing(h: History, seq: int, time: Timestamp)
    requires
        !h.holds(seq),
    ensures
        h.after_received(seq, time) == h,
{
}

/// After a run of probes the history holds the newest records, as many as
/// fit: of the old records followed by the new ones it keeps the last
/// `capacity`, or all of them if they are fewer, and the oldest live sequence
/// number has grown by the number of records that left.
pub proof fn lemma_sends_keep_newest(h: History, times: Seq<Timestamp>)
    requires
        h.valid(),
    ensures
        ({
            let after = h.after_sends(times);
            let all = h.records + unanswered(times);
            let kept = if all.len() <= h.capacity {
                all.len()
            } else {
                h.capacity
            };
            &&& after.capacity == h.capacity
            &&& after.end() == h.end() + times.len()
            &&& after.records == all.subrange(all.len() - kept, all.len() as int)
            &&& after.start == h.start + (all.len() - kept)
        }),
    decreases times.len(),
{
    let after = h.after_sends(times);
    let all = h.records + unanswered(times);
    let kept = if all.len() <= h.capacity {
        all.len()
    } else {
        h.capacity
    };
    if times.len() == 0 {
        assert(after.records =~= all.subrange(all.len() - kept, all.len() as int));
    } else {
        let earlier = times.drop_last();
        lemma_sends_keep_newest(h, earlier);
        let mid_all = h.records + unanswered(earlier);
        assert(all =~= mid_all.push(Ping::Sent(times.last())));
        assert(after.records =~= all.subrange(all.len() - kept, all.len() as int));
    }
}

/// A new history of capacity `capacity` that is given `capacity + extra`
/// probes holds exactly the newest `capacity` of them, in order and
/// unanswered, and its oldest live sequence number is `extra`.
pub proof fn lemma_overfull_history_keeps_newest(capacity: nat, extra: nat, times: Seq<Timestamp>)
    requires
        times.len() == capacity + extra,
    ensures
        History::empty(capacity).after_sends(times).start == extra,
        History::empty(capacity).after_sends(times).records == unanswered(times).subrange(
            extra as int,
            times.len() as int,
        ),
        History::empty(capacity).after_sends(times).records.len() == capacity,
{
    let h = History::empty(capacity);
    lemma_sends_keep_newest(h, times);
    assert(h.records + unanswered(times) =~= unanswered(times));
}

} // verus!
