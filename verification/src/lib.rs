//! A bulk loader core: compressed, line-delimited JSON shards are decoded,
//! split into records, recompressed per record, and written to a key-value
//! store through batched pipelines, one worker per shard.

pub mod codec;
pub mod model;
pub mod record;
pub mod run;
pub mod shard;
pub mod store;
