//! The record parser: a shard's decompressed payload is newline-delimited
//! JSON.  Every non-empty line is parsed as a JSON object whose first field
//! gives the (key, value) pair; the value is re-serialized to its canonical
//! text.  A line that is not JSON is fatal to the remainder of its shard; a
//! value with no usable field is silently skipped.

use vstd::prelude::*;

use crate::codec::gunzip;
use crate::codec::gzip_best;
use crate::codec::gzip_compress;

verus! {

/// Splitting `text` on newline bytes, with `cur` the partial line read so
/// far.  A trailing segment is kept only when it is non-empty, as a final
/// newline ends the last record rather than opening an empty one.
pub open spec fn split_acc(text: Seq<u8>, cur: Seq<u8>) -> Seq<Seq<u8>>
    decreases text.len(),
{
    if text.len() == 0 {
        if cur.len() == 0 {
            Seq::empty()
        } else {
            seq![cur]
        }
    } else if text[0] == 10 {
        seq![cur] + split_acc(text.drop_first(), Seq::empty())
    } else {
        split_acc(text.drop_first(), cur.push(text[0]))
    }
}

/// The lines of a shard payload: the segments of `text` between newlines.
pub open spec fn lines_of(text: Seq<u8>) -> Seq<Seq<u8>> {
    split_acc(text, Seq::empty())
}

/// The byte views of a vector of byte vectors.
pub open spec fn views_of(v: Seq<Vec<u8>>) -> Seq<Seq<u8>> {
    v.map_values(|x: Vec<u8>| x@)
}

/// Splits a payload into its lines.
pub fn split_lines(text: &Vec<u8>) -> (r: Vec<Vec<u8>>)
    ensures
        views_of(r@) == lines_of(text@),
{
    let mut out: Vec<Vec<u8>> = Vec::new();
    let mut cur: Vec<u8> = Vec::new();
    let mut i: usize = 0;
    proof {
        assert(text@.skip(0) =~= text@);
        assert(views_of(out@) + split_acc(text@, cur@) =~= split_acc(text@, cur@));
    }
    while i < text.len()
        invariant
            i <= text.len(),
            lines_of(text@) == views_of(out@) + split_acc(text@.skip(i as int), cur@),
        decreases text.len() - i,
    {
        let b = text[i];
        proof {
            assert(text@.skip(i as int)[0] == text@[i as int]);
            assert(text@.skip(i as int).drop_first() =~= text@.skip(i as int + 1));
        }
        if b == 10 {
            proof {
                assert(views_of(out@.push(cur)) =~= views_of(out@).push(cur@));
            }
            out.push(cur);
            cur = Vec::new();
        } else {
            cur.push(b);
        }
        i += 1;
    }
    proof {
        assert(text@.skip(text@.len() as int) =~= Seq::<u8>::empty());
    }
    if cur.len() > 0 {
        proof {
            assert(views_of(out@.push(cur)) =~= views_of(out@).push(cur@));
            assert(views_of(out@).push(cur@) =~= views_of(out@) + seq![cur@]);
        }
        out.push(cur);
    } else {
        proof {
            assert(views_of(out@) + Seq::<Seq<u8>>::empty() =~= views_of(out@));
        }
    }
    out
}

/// What the JSON parser makes of one line: `Err` for a line that is not a
/// JSON document, `Ok(None)` for a document that is not an object or an
/// object with no fields, and `Ok(Some((key, text)))` for the first field's
/// name and the canonical serialization of that field's value.  The outcome
/// is a function of the line's bytes alone.
pub uninterp spec fn json_record(line: Seq<u8>) -> Result<Option<(Seq<char>, Seq<u8>)>, ()>;

/// Relies on serde_json::from_slice to parse one line, Value::as_object and
/// map iteration to reach the first field, and Value::to_string for the
/// canonical text of its value.
#[verifier::external_body]
pub fn parse_record(line: &Vec<u8>) -> (r: Result<Option<(String, Vec<u8>)>, String>)
    ensures
        match r {
            Ok(Some((k, v))) => json_record(line@) == Ok::<Option<(Seq<char>, Seq<u8>)>, ()>(
                Some((k@, v@)),
            ),
            Ok(None) => json_record(line@) == Ok::<Option<(Seq<char>, Seq<u8>)>, ()>(None),
            Err(_) => json_record(line@) is Err,
        },
{
    match serde_json::from_slice::<serde_json::Value>(&line[..]) {
        Err(e) => Err(format!("{}", e)),
        Ok(doc) => match doc.as_object() {
            None => Ok(None),
            Some(fields) => match fields.iter().next() {
                None => Ok(None),
                Some((k, value)) => Ok(Some((k.clone(), value.to_string().into_bytes()))),
            },
        },
    }
}

/// A line that aborts the remainder of its shard: non-empty and not JSON.
pub open spec fn is_bad(line: Seq<u8>) -> bool {
    line.len() > 0 && json_record(line) is Err
}

/// The record one line yields, if any.  Empty lines and lines without a
/// usable field yield none.
pub open spec fn line_record(line: Seq<u8>) -> Option<(Seq<char>, Seq<u8>)> {
    if line.len() > 0 && json_record(line) is Ok {
        json_record(line)->Ok_0
    } else {
        None
    }
}

/// The first malformed line among the first `n` lines, if there is one.
pub open spec fn first_bad(lines: Seq<Seq<u8>>, n: int) -> Option<int>
    decreases n,
{
    if n <= 0 {
        None
    } else if first_bad(lines, n - 1) is Some {
        first_bad(lines, n - 1)
    } else if is_bad(lines[n - 1]) {
        Some(n - 1)
    } else {
        None
    }
}

/// The records of the first `n` lines, in order, cut off at the first
/// malformed line.
pub open spec fn records_upto(lines: Seq<Seq<u8>>, n: int) -> Seq<(Seq<char>, Seq<u8>)>
    decreases n,
{
    if n <= 0 {
        Seq::empty()
    } else if first_bad(lines, n - 1) is Some {
        records_upto(lines, n - 1)
    } else {
        match line_record(lines[n - 1]) {
            Some(kv) => records_upto(lines, n - 1).push(kv),
            None => records_upto(lines, n - 1),
        }
    }
}

/// Once a malformed line has been seen, later lines add nothing.
pub proof fn lemma_records_frozen(lines: Seq<Seq<u8>>, k: int, n: int)
    requires
        0 <= k <= n,
        first_bad(lines, k) is Some,
    ensures
        first_bad(lines, n) == first_bad(lines, k),
        records_upto(lines, n) == records_upto(lines, k),
    decreases n - k,
{
    if k < n {
        lemma_records_frozen(lines, k, n - 1);
    }
}

/// The records of a whole shard payload, in order, cut off at the first
/// malformed line.
pub open spec fn shard_records(text: Seq<u8>) -> Seq<(Seq<char>, Seq<u8>)> {
    records_upto(lines_of(text), lines_of(text).len() as int)
}

/// The first malformed line of a shard payload, if there is one.
pub open spec fn shard_bad_line(text: Seq<u8>) -> Option<int> {
    first_bad(lines_of(text), lines_of(text).len() as int)
}

/// The views of pending write entries.
pub open spec fn entry_views(es: Seq<(String, Vec<u8>)>) -> Seq<(Seq<char>, Seq<u8>)> {
    es.map_values(|e: (String, Vec<u8>)| (e.0@, e.1@))
}

/// The entries carry the records' keys in order, and each entry's bytes are
/// exactly the maximum-effort compression of its record's canonical value
/// text — which decompresses back to that text.
pub open spec fn entries_encode(
    es: Seq<(Seq<char>, Seq<u8>)>,
    recs: Seq<(Seq<char>, Seq<u8>)>,
) -> bool {
    &&& es.len() == recs.len()
    &&& forall|i: int|
        0 <= i < recs.len() ==> es[i].0 == recs[i].0 && es[i].1 == gzip_best(recs[i].1) && gunzip(
            es[i].1,
        ) == Some(recs[i].1)
}

/// Planning an unchanged payload again yields byte-identical entries: both
/// plans' entries are pinned, key and bytes, by the payload's records.
pub proof fn lemma_replan_identical(
    es1: Seq<(Seq<char>, Seq<u8>)>,
    es2: Seq<(Seq<char>, Seq<u8>)>,
    recs: Seq<(Seq<char>, Seq<u8>)>,
)
    requires
        entries_encode(es1, recs),
        entries_encode(es2, recs),
    ensures
        es1 == es2,
{
    assert forall|i: int| 0 <= i < es1.len() implies es1[i] == es2[i] by {
        assert(es1[i].0 == recs[i].0 && es2[i].0 == recs[i].0);
        assert(es1[i].1 == gzip_best(recs[i].1) && es2[i].1 == gzip_best(recs[i].1));
    }
    assert(es1 =~= es2);
}

/// The pending writes one shard calls for: one entry per record, each value
/// recompressed on its own, plus the first malformed line if parsing stopped
/// early.
pub struct ShardPlan {
    pub entries: Vec<(String, Vec<u8>)>,
    pub bad_line: Option<usize>,
}

/// Turns a decompressed shard payload into its write entries: one per record
/// of every line before the first malformed one, values recompressed each on
/// its own.
pub fn plan_lines(text: &Vec<u8>) -> (r: ShardPlan)
    ensures
        entries_encode(entry_views(r.entries@), shard_records(text@)),
        match r.bad_line {
            None => shard_bad_line(text@) is None,
            Some(j) => shard_bad_line(text@) == Some(j as int),
        },
{
    let lines = split_lines(text);
    let ghost lv = views_of(lines@);
    let mut entries: Vec<(String, Vec<u8>)> = Vec::new();
    let mut bad: Option<usize> = None;
    let mut k: usize = 0;
    while k < lines.len() && bad.is_none()
        invariant
            k <= lines.len(),
            lv == views_of(lines@),
            lv == lines_of(text@),
            match bad {
                None => first_bad(lv, k as int) is None && entries_encode(
                    entry_views(entries@),
                    records_upto(lv, k as int),
                ),
                Some(j) => j < k && first_bad(lv, k as int) == Some(j as int) && entries_encode(
                    entry_views(entries@),
                    records_upto(lv, k as int),
                ),
            },
        decreases lines.len() - k,
    {
        let line = &lines[k];
        proof {
            assert(lv[k as int] == lines@[k as int]@);
        }
        if line.len() > 0 {
            match parse_record(line) {
                Err(_) => {
                    bad = Some(k);
                },
                Ok(None) => {},
                Ok(Some((key, val))) => {
                    let packed = gzip_compress(&val);
                    proof {
                        assert(entry_views(entries@.push((key, packed))) =~= entry_views(
                            entries@,
                        ).push((key@, packed@)));
                    }
                    entries.push((key, packed));
                },
            }
        }
        k += 1;
    }
    proof {
        if bad is Some {
            lemma_records_frozen(lv, k as int, lv.len() as int);
        }
    }
    ShardPlan { entries, bad_line: bad }
}

} // verus!
