//! Per-shard processing: decompress the payload, plan its write entries, and
//! send them through the worker's pipeline in batches of at most one hundred,
//! with one final flush for any remainder.  A shard's failure is its own:
//! batches already flushed stand, and the error is handed back to the caller.

use vstd::prelude::*;

use crate::codec::gunzip;
use crate::codec::gzip_decompress;
use crate::record::entries_encode;
use crate::record::entry_views;
use crate::record::plan_lines;
use crate::record::shard_bad_line;
use crate::record::shard_records;
use crate::store::RedisClient;
use crate::store::RedisConnection;
use crate::store::RedisPipeline;

verus! {

/// Why a shard stopped early.  Earlier flushed batches from the same shard
/// remain committed in every case.
#[derive(Debug)]
pub enum ShardError {
    /// The worker could not open its connection.
    Connect(String),
    /// The payload is not a well-formed compressed stream.
    Decode(String),
    /// The line with this index is not JSON; later lines were not read.
    Parse(usize),
    /// The store rejected a batch; later batches were not sent.
    Flush(String),
}

/// What one shard's processing came to: how many records reached the store,
/// in how many flushes, and why it stopped early if it did.
#[derive(Debug)]
pub struct ShardOutcome {
    pub ingested: u64,
    pub flushes: u64,
    pub error: Option<ShardError>,
}

/// How many flushes a shard of `n` records takes: one per full hundred of
/// records, plus one for any remainder.
pub open spec fn flushes_for(n: nat) -> nat {
    (n + 99) / 100
}

proof fn lemma_flush_count(f: nat, c: nat)
    requires
        c < 100,
    ensures
        flushes_for((100 * f + c) as nat) == if c == 0 {
            f
        } else {
            (f + 1) as nat
        },
{
    if c == 0 {
        assert((100 * f + 0 + 99) / 100 == f) by (nonlinear_arith);
    } else {
        assert((100 * f + c + 99) / 100 == f + 1) by (nonlinear_arith)
            requires
                1 <= c < 100,
        ;
    }
}

/// Sends the entries through the pipeline in order, flushing after every
/// hundredth entry and once more for any remainder.  Returns how many entries
/// were in successfully flushed batches, how many flushes succeeded, and the
/// store's error if a flush failed.  The pipeline never holds more than one
/// hundred pending writes.
pub fn execute_entries(
    con: &mut RedisConnection,
    pipe: &mut RedisPipeline,
    entries: &Vec<(String, Vec<u8>)>,
) -> (r: (u64, u64, Option<String>))
    requires
        old(con).variant() == old(pipe).variant(),
        old(pipe).contents() == Seq::<(Seq<char>, Seq<u8>)>::empty(),
    ensures
        final(con).variant() == old(con).variant(),
        final(pipe).variant() == old(pipe).variant(),
        r.2 is None ==> r.0 == entries@.len() && r.1 == flushes_for(entries@.len() as nat),
        r.2 is Some ==> r.0 == 100 * r.1 && r.0 <= entries@.len(),
{
    let n = entries.len();
    let mut i: usize = 0;
    let mut cnt: usize = 0;
    let mut flushes: u64 = 0;
    let mut failed: Option<String> = None;
    while i < n && failed.is_none()
        invariant
            cnt <= i <= n,
            n == entries@.len(),
            con.variant() == old(con).variant(),
            pipe.variant() == old(pipe).variant(),
            con.variant() == pipe.variant(),
            pipe.contents().len() <= 100,
            failed is None ==> cnt < 100 && pipe.contents() == entry_views(entries@).subrange(
                i - cnt,
                i as int,
            ) && i - cnt == 100 * flushes,
            failed is Some ==> 100 * flushes <= n,
        decreases n - i,
    {
        let (key, value) = (&entries[i].0, &entries[i].1);
        proof {
            assert(entry_views(entries@)[i as int] == (
                entries@[i as int].0@,
                entries@[i as int].1@,
            ));
            assert(entry_views(entries@).subrange(i - cnt, i as int).push(
                entry_views(entries@)[i as int],
            ) =~= entry_views(entries@).subrange(i - cnt, i + 1));
        }
        pipe.add_set(key.as_str(), value);
        cnt = cnt + 1;
        i = i + 1;
        if cnt == 100 {
            match pipe.flush(con) {
                Ok(()) => {
                    proof {
                        assert(100 * (flushes + 1) == 100 * flushes + 100) by (nonlinear_arith);
                        assert(100 * flushes + 100 <= n);
                        assert(flushes + 1 <= u64::MAX) by (nonlinear_arith)
                            requires
                                100 * (flushes + 1) <= n <= u64::MAX,
                        ;
                        assert(entry_views(entries@).subrange(i as int, i as int)
                            =~= Seq::<(Seq<char>, Seq<u8>)>::empty());
                    }
                    flushes = flushes + 1;
                    cnt = 0;
                },
                Err(e) => {
                    failed = Some(e);
                },
            }
        }
    }
    if failed.is_none() && cnt > 0 {
        match pipe.flush(con) {
            Ok(()) => {
                proof {
                    lemma_flush_count(flushes as nat, cnt as nat);
                    assert(flushes + 1 <= u64::MAX) by (nonlinear_arith)
                        requires
                            100 * flushes <= n <= u64::MAX,
                ;
                }
                flushes = flushes + 1;
                cnt = 0;
                let ingested: u64 = n as u64;
                return (ingested, flushes, None);
            },
            Err(e) => {
                failed = Some(e);
            },
        }
    }
    match failed {
        None => {
            proof {
                lemma_flush_count(flushes as nat, 0);
            }
            ((n as u64), flushes, None)
        },
        Some(e) => {
            proof {
                assert(100 * flushes <= u64::MAX);
            }
            let ingested: u64 = 100 * flushes;
            (ingested, flushes, Some(e))
        },
    }
}

/// Processes one fetched shard end to end: open this worker's connection,
/// decompress the payload, parse its lines into write entries, and send them
/// in batches.  Every failure is the shard's own; what was flushed before it
/// stands and is counted.
pub fn process_shard(client: &RedisClient, payload: &Vec<u8>) -> (r: ShardOutcome)
    ensures
        r.error is None ==> (gunzip(payload@) matches Some(t) && shard_bad_line(t) is None
            && r.ingested == shard_records(t).len() && r.flushes == flushes_for(
            shard_records(t).len(),
        )),
        r.error matches Some(ShardError::Connect(_)) ==> r.ingested == 0 && r.flushes == 0,
        r.error matches Some(ShardError::Decode(_)) ==> gunzip(payload@) is None && r.ingested
            == 0 && r.flushes == 0,
        r.error matches Some(ShardError::Parse(j)) ==> (gunzip(payload@) matches Some(t)
            && shard_bad_line(t) == Some(j as int) && r.ingested == shard_records(t).len()
            && r.flushes == flushes_for(shard_records(t).len())),
        r.error matches Some(ShardError::Flush(_)) ==> r.ingested == 100 * r.flushes && gunzip(
            payload@,
        ) is Some && (gunzip(payload@) matches Some(t) ==> r.ingested <= shard_records(t).len()),
{
    let mut con = match client.get_connection() {
        Ok(c) => c,
        Err(e) => {
            return ShardOutcome { ingested: 0, flushes: 0, error: Some(ShardError::Connect(e)) };
        },
    };
    let text = match gzip_decompress(payload) {
        Ok(t) => t,
        Err(e) => {
            return ShardOutcome { ingested: 0, flushes: 0, error: Some(ShardError::Decode(e)) };
        },
    };
    let plan = plan_lines(&text);
    let mut pipe = client.make_pipeline();
    let (ingested, flushes, flush_err) = execute_entries(&mut con, &mut pipe, &plan.entries);
    let error = match flush_err {
        Some(e) => Some(ShardError::Flush(e)),
        None => match plan.bad_line {
            Some(j) => Some(ShardError::Parse(j)),
            None => None,
        },
    };
    ShardOutcome { ingested, flushes, error }
}

} // verus!
