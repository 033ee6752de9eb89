use shard_ingest::codec::gzip_compress;
use shard_ingest::codec::gzip_decompress;
use shard_ingest::model::StoreModel;
use shard_ingest::record::plan_lines;
use shard_ingest::run::IngestedCounter;

fn plan_text(text: &str) -> shard_ingest::record::ShardPlan {
    plan_lines(&text.as_bytes().to_vec())
}

fn decompressed(value: &Vec<u8>) -> Vec<u8> {
    gzip_decompress(value).unwrap()
}

#[test]
fn single_field_line_becomes_entry() {
    let plan = plan_text("{\"k1\":\"v1\"}");
    assert!(plan.bad_line.is_none());
    assert_eq!(plan.entries.len(), 1);
    assert_eq!(plan.entries[0].0, "k1");
    assert_eq!(decompressed(&plan.entries[0].1), b"\"v1\"".to_vec());
}

#[test]
fn counts_well_formed_lines() {
    let mut text = String::new();
    for i in 0..250 {
        text.push_str(&format!("{{\"key{}\":{}}}\n", i, i));
    }
    let plan = plan_text(&text);
    assert!(plan.bad_line.is_none());
    assert_eq!(plan.entries.len(), 250);
    assert_eq!(plan.entries[17].0, "key17");
    assert_eq!(decompressed(&plan.entries[17].1), b"17".to_vec());
}

#[test]
fn empty_lines_are_skipped() {
    let plan = plan_text("\n{\"a\":1}\n\n{\"b\":2}\n");
    assert!(plan.bad_line.is_none());
    assert_eq!(plan.entries.len(), 2);
    assert_eq!(plan.entries[0].0, "a");
    assert_eq!(plan.entries[1].0, "b");
}

#[test]
fn empty_object_yields_no_pair() {
    let plan = plan_text("{}\n{\"a\":1}");
    assert!(plan.bad_line.is_none());
    assert_eq!(plan.entries.len(), 1);
    assert_eq!(plan.entries[0].0, "a");
}

#[test]
fn non_object_line_is_skipped() {
    let plan = plan_text("42\n{\"a\":1}");
    assert!(plan.bad_line.is_none());
    assert_eq!(plan.entries.len(), 1);
}

#[test]
fn nested_value_is_canonical_text() {
    let plan = plan_text("{\"k2\":{\"n\":2}}");
    assert_eq!(plan.entries.len(), 1);
    assert_eq!(plan.entries[0].0, "k2");
    assert_eq!(decompressed(&plan.entries[0].1), b"{\"n\":2}".to_vec());
}

#[test]
fn malformed_line_aborts_remainder_of_shard() {
    let plan = plan_text("{\"a\":1}\nnot json\n{\"b\":2}");
    assert_eq!(plan.bad_line, Some(1));
    assert_eq!(plan.entries.len(), 1);
    assert_eq!(plan.entries[0].0, "a");
}

#[test]
fn malformed_shard_leaves_other_shards_whole() {
    let bad = plan_text("{\"a\":1}\nnot json\n{\"c\":3}");
    let good = plan_text("{\"b\":2}");
    assert!(bad.bad_line.is_some());
    assert!(good.bad_line.is_none());

    let mut store = StoreModel::new();
    store.apply(&bad.entries);
    store.apply(&good.entries);

    let mut counter = IngestedCounter::new();
    counter.add(bad.entries.len() as u64);
    counter.add(good.entries.len() as u64);

    assert_eq!(counter.total, 2);
    assert!(store.get(&"a".to_string()).is_some());
    assert!(store.get(&"b".to_string()).is_some());
    assert!(store.get(&"c".to_string()).is_none());
}

#[test]
fn reingesting_unchanged_shard_is_idempotent() {
    let text = "{\"k1\":\"v1\"}\n{\"k2\":{\"n\":2}}";
    let first = plan_text(text);
    let second = plan_text(text);
    assert_eq!(first.entries, second.entries);

    let mut once = StoreModel::new();
    once.apply(&first.entries);
    let mut twice = once.clone();
    twice.apply(&second.entries);

    for key in ["k1", "k2"] {
        let k = key.to_string();
        assert_eq!(once.get(&k).unwrap(), twice.get(&k).unwrap());
    }
}

#[test]
fn end_to_end_shard_into_store_model() {
    let payload = gzip_compress(&b"{\"k1\":\"v1\"}\n{\"k2\":{\"n\":2}}".to_vec());
    let text = gzip_decompress(&payload).unwrap();
    let plan = plan_lines(&text);
    assert!(plan.bad_line.is_none());
    assert_eq!(plan.entries.len(), 2);

    let mut store = StoreModel::new();
    store.apply(&plan.entries);
    let v1 = store.get(&"k1".to_string()).unwrap().clone();
    let v2 = store.get(&"k2".to_string()).unwrap().clone();
    assert_eq!(decompressed(&v1), b"\"v1\"".to_vec());
    assert_eq!(decompressed(&v2), b"{\"n\":2}".to_vec());

    let mut counter = IngestedCounter::new();
    counter.add(plan.entries.len() as u64);
    assert_eq!(counter.total, 2);
}

#[test]
fn run_total_sums_clean_shards() {
    let shards = ["{\"a\":1}\n{\"b\":2}", "{\"c\":3}", ""];
    let mut counter = IngestedCounter::new();
    for text in shards {
        let plan = plan_text(text);
        assert!(plan.bad_line.is_none());
        counter.add(plan.entries.len() as u64);
    }
    assert_eq!(counter.total, 3);
}

#[test]
fn last_write_wins_in_store_model() {
    let mut store = StoreModel::new();
    store.set("k".to_string(), b"old".to_vec());
    store.set("k".to_string(), b"new".to_vec());
    assert_eq!(store.get(&"k".to_string()).unwrap(), &b"new".to_vec());
}

#[test]
fn counter_saturates_at_limit() {
    let mut counter = IngestedCounter::new();
    counter.add(u64::MAX - 1);
    counter.add(5);
    assert_eq!(counter.total, u64::MAX);
}
