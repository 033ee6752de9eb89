//! The run-wide ingested count: the one piece of state the workers share.
//! Each worker adds what its shard's successful flushes carried; a full run
//! over clean shards totals exactly the records of every shard.

use vstd::prelude::*;

use crate::record::shard_records;

verus! {

/// The process-wide total of successfully flushed keys.  It only grows, and
/// it saturates rather than wrap at the machine limit.
pub struct IngestedCounter {
    pub total: u64,
}

impl IngestedCounter {
    /// A counter at zero.
    pub fn new() -> (c: IngestedCounter)
        ensures
            c.total == 0,
    {
        IngestedCounter { total: 0 }
    }

    /// Adds one shard's ingested count.  The total never decreases, and it
    /// is exact wherever the machine limit is not reached.
    pub fn add(&mut self, n: u64)
        ensures
            final(self).total == if old(self).total + n <= u64::MAX {
                (old(self).total + n) as u64
            } else {
                u64::MAX
            },
            old(self).total <= final(self).total,
    {
        if u64::MAX - self.total >= n {
            self.total = self.total + n;
        } else {
            self.total = u64::MAX;
        }
    }
}

/// The sum of a sequence of per-shard counts.
pub open spec fn sum_of(counts: Seq<u64>) -> int
    decreases counts.len(),
{
    if counts.len() == 0 {
        0
    } else {
        sum_of(counts.drop_last()) + counts.last()
    }
}

/// The records of every shard payload summed.
pub open spec fn total_records(texts: Seq<Seq<u8>>) -> int
    decreases texts.len(),
{
    if texts.len() == 0 {
        0
    } else {
        total_records(texts.drop_last()) + shard_records(texts.last()).len()
    }
}

/// For shards whose payloads parse cleanly, so that each worker ingested
/// exactly its shard's record count, the run's total equals the records of
/// all shards summed.
pub proof fn lemma_run_total(texts: Seq<Seq<u8>>, counts: Seq<u64>)
    requires
        counts.len() == texts.len(),
        forall|i: int|
            0 <= i < texts.len() ==> counts[i] == shard_records(texts[i]).len(),
    ensures
        sum_of(counts) == total_records(texts),
    decreases texts.len(),
{
    if texts.len() > 0 {
        lemma_run_total(texts.drop_last(), counts.drop_last());
    }
}

} // verus!
