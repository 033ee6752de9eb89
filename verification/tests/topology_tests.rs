use shard_ingest::shard::ShardError;
use shard_ingest::shard::process_shard;
use shard_ingest::store::RedisClient;
use shard_ingest::store::Topology;
use shard_ingest::store::split_nodes;
use shard_ingest::store::topology_from_mode;

#[test]
fn no_mode_selects_single() {
    assert_eq!(topology_from_mode(&None), Topology::Single);
    assert_eq!(topology_from_mode(&Some("".to_string())), Topology::Single);
    assert_eq!(topology_from_mode(&Some("standalone".to_string())), Topology::Single);
}

#[test]
fn cluster_mode_selects_cluster() {
    assert_eq!(topology_from_mode(&Some("cluster".to_string())), Topology::Cluster);
}

#[test]
fn endpoint_list_splits_on_commas() {
    assert_eq!(split_nodes("a:1,b:2"), vec!["a:1".to_string(), "b:2".to_string()]);
    assert_eq!(split_nodes("one"), vec!["one".to_string()]);
    assert_eq!(split_nodes(""), vec!["".to_string()]);
    assert_eq!(split_nodes("a,,b"), vec!["a".to_string(), "".to_string(), "b".to_string()]);
}

#[test]
fn single_client_and_pipeline_are_single_variant() {
    let client = RedisClient::new("redis://localhost:6379", &None).unwrap();
    assert_eq!(client.current_topology(), Topology::Single);
    let pipe = client.make_pipeline();
    assert_eq!(pipe.current_variant(), Topology::Single);
}

#[test]
fn cluster_client_and_pipeline_are_cluster_variant() {
    let mode = Some("cluster".to_string());
    let client = RedisClient::new("redis://a:1,redis://b:2", &mode).unwrap();
    assert_eq!(client.current_topology(), Topology::Cluster);
    let pipe = client.make_pipeline();
    assert_eq!(pipe.current_variant(), Topology::Cluster);
}

#[test]
fn pipeline_queues_one_command_per_add() {
    let client = RedisClient::new("redis://localhost:6379", &None).unwrap();
    let mut pipe = client.make_pipeline();
    assert_eq!(pipe.pending(), 0);
    pipe.add_set("k1", &b"v1".to_vec());
    pipe.add_set("k2", &b"v2".to_vec());
    assert_eq!(pipe.pending(), 2);
}

#[test]
fn cluster_pipeline_queues_one_command_per_add() {
    let mode = Some("cluster".to_string());
    let client = RedisClient::new("redis://a:1", &mode).unwrap();
    let mut pipe = client.make_pipeline();
    assert_eq!(pipe.pending(), 0);
    pipe.add_set("k", &b"v".to_vec());
    assert_eq!(pipe.pending(), 1);
}

#[test]
fn bad_single_url_is_rejected() {
    assert!(RedisClient::new("not a url", &None).is_err());
}

#[test]
fn bad_cluster_nodes_are_rejected() {
    let mode = Some("cluster".to_string());
    assert!(RedisClient::new("not a url,also not one", &mode).is_err());
}

#[test]
fn unreachable_store_fails_shard_with_connect_error() {
    // port 1 on localhost is not a redis endpoint, so the worker cannot
    // acquire its connection and the shard reports a connect failure
    let client = RedisClient::new("redis://127.0.0.1:1", &None).unwrap();
    let payload = shard_ingest::codec::gzip_compress(&b"{\"a\":1}".to_vec());
    let outcome = process_shard(&client, &payload);
    assert_eq!(outcome.ingested, 0);
    assert_eq!(outcome.flushes, 0);
    assert!(matches!(outcome.error, Some(ShardError::Connect(_))));
}
