//! Least, greatest and mean latency of the newest probes.

use crate::ringbuf::{Ping, RingBuffer};
use vstd::prelude::*;

verus! {

/// The latencies of the answered probes among some records.
#[derive(Copy, Clone, Debug, PartialEq, Eq, Structural)]
pub struct LatencySummary {
    /// The least latency, in milliseconds.
    pub min: u128,
    /// The greatest latency, in milliseconds.
    pub max: u128,
    /// The mean latency, in milliseconds, rounded down.
    pub avg: u128,
    /// How many probes were answered.
    pub count: usize,
}

/// The newest `limit` of `records`, or all of them if they are fewer.
pub open spec fn newest(records: Seq<Ping>, limit: nat) -> Seq<Ping> {
    if limit >= records.len() {
        records
    } else {
        records.subrange(records.len() - limit, records.len() as int)
    }
}

/// The latencies of the answered probes among `records`, in the order of the records.
pub open spec fn latencies(records: Seq<Ping>) -> Seq<u128>
    decreases records.len(),
{
    if records.len() == 0 {
        Seq::empty()
    } else {
        match records.last() {
            Ping::Received(_, latency) => latencies(records.drop_last()).push(latency),
            Ping::Sent(_) => latencies(records.drop_last()),
        }
    }
}

/// The sum of `values`.
pub open spec fn total(values: Seq<u128>) -> int
    decreases values.len(),
{
    if values.len() == 0 {
        0
    } else {
        total(values.drop_last()) + values.last()
    }
}

/// `sum`, held at the largest number that 128 bits take.
pub open spec fn capped(sum: int) -> int {
    if sum > u128::MAX {
        u128::MAX as int
    } else {
        sum
    }
}

/// Whether `summary` sums up `values`: its least and greatest are among them
/// and bound them all, its count is their number, and its mean is their sum,
/// held at the largest number that 128 bits take, over their number.
pub open spec fn sums_up(summary: LatencySummary, values: Seq<u128>) -> bool {
    &&& values.len() > 0
    &&& summary.count == values.len()
    &&& values.contains(summary.min)
    &&& values.contains(summary.max)
    &&& forall|i: int| 0 <= i < values.len() ==> summary.min <= #[trigger] values[i] <= summary.max
    &&& summary.avg == capped(total(values)) / (values.len() as int)
}

proof fn lemma_total_is_not_negative(values: Seq<u128>)
    ensures
        total(values) >= 0,
    decreases values.len(),
{
    if values.len() > 0 {
        lemma_total_is_not_negative(values.drop_last());
    }
}

/// The latencies among the newest `limit` records of `history`: `None` if
/// none of them is answered.
pub fn latency_summary(history: &RingBuffer, limit: usize) -> (summary: Option<LatencySummary>)
    requires
        history.well_formed(),
    ensures
        summary is None <==> latencies(newest(history@.records, limit as nat)).len() == 0,
        summary matches Some(s) ==> sums_up(s, latencies(newest(history@.records, limit as nat))),
{
    let len: usize = history.len();
    let kept: usize = if limit >= len {
        len
    } else {
        limit
    };
    let end: u64 = history.get_end_index();
    let first: u64 = end - kept as u64;
    let ghost window = newest(history@.records, limit as nat);
    let mut min: u128 = u128::MAX;
    let mut max: u128 = 0;
    let mut sum: u128 = 0;
    let mut count: usize = 0;
    let mut k: usize = 0;
    while k < kept
        invariant
            history.well_formed(),
            k <= kept <= history@.records.len(),
            first + kept == history@.end(),
            history@.end() <= u64::MAX,
            window == newest(history@.records, limit as nat),
            window.len() == kept,
            forall|i: int| 0 <= i < kept ==> window[i] == history@.record(first + i),
            count == latencies(window.subrange(0, k as int)).len(),
            count <= k,
            sum == capped(total(latencies(window.subrange(0, k as int)))),
            count == 0 ==> min == u128::MAX && max == 0,
            count > 0 ==> latencies(window.subrange(0, k as int)).contains(min) && latencies(
                window.subrange(0, k as int),
            ).contains(max),
            forall|i: int|
                0 <= i < count ==> min <= #[trigger] latencies(window.subrange(0, k as int))[i]
                    <= max,
        decreases kept - k,
    {
        let ghost before = latencies(window.subrange(0, k as int));
        let ghost after = latencies(window.subrange(0, k + 1));
        proof {
            assert(window.subrange(0, k + 1).drop_last() =~= window.subrange(0, k as int));
            assert(window.subrange(0, k + 1).last() == window[k as int]);
            lemma_total_is_not_negative(before);
        }
        let seq: u64 = first + k as u64;
        match history.index(seq) {
            Ok(Ping::Received(_, latency)) => {
                proof {
                    assert(after == before.push(latency));
                    assert(after.drop_last() =~= before);
                    assert(after.last() == latency);
                    assert(after[count as int] == latency);
                    assert forall|i: int| 0 <= i < count implies after[i] == before[i] by {}
                }
                if latency < min {
                    min = latency;
                }
                if latency > max {
                    max = latency;
                }
                sum = if latency > u128::MAX - sum {
                    u128::MAX
                } else {
                    sum + latency
                };
                count = count + 1;
                proof {
                    assert(after.contains(min)) by {
                        if min == latency {
                            assert(after[count - 1] == min);
                        } else {
                            let j = choose|j: int| 0 <= j < before.len() && before[j] == min;
                            assert(after[j] == min);
                        }
                    }
                    assert(after.contains(max)) by {
                        if max == latency {
                            assert(after[count - 1] == max);
                        } else {
                            let j = choose|j: int| 0 <= j < before.len() && before[j] == max;
                            assert(after[j] == max);
                        }
                    }
                }
            },
            _ => {
                assert(after == before);
            },
        }
        k = k + 1;
    }
    assert(window.subrange(0, kept as int) =~= window);
    if count == 0 {
        None
    } else {
        Some(LatencySummary { min, max, avg: sum / (count as u128), count })
    }
}

} // verus!
