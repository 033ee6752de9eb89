//! The dual-topology abstraction over the key-value client: one process-wide
//! client, built from configuration at startup, hands each worker its own
//! connection and pipeline, both carrying the same variant as the client.  A
//! variant mismatch is ruled out by construction: every operation below
//! preserves the variant it was given.

use vstd::prelude::*;

verus! {

/// The destination store's deployment shape, fixed for the process lifetime.
#[derive(Clone, Copy, PartialEq, Eq, Structural, Debug)]
pub enum Topology {
    Single,
    Cluster,
}

#[verifier::external_type_specification]
#[verifier::external_body]
pub struct ExClient(redis::Client);

#[verifier::external_type_specification]
#[verifier::external_body]
pub struct ExConnection(redis::Connection);

#[verifier::external_type_specification]
#[verifier::external_body]
pub struct ExClusterClient(redis::cluster::ClusterClient);

#[verifier::external_type_specification]
#[verifier::external_body]
#[verifier::reject_recursive_types(C)]
pub struct ExClusterConnection<C>(redis::cluster::ClusterConnection<C>);

#[verifier::external_type_specification]
#[verifier::external_body]
pub struct ExPipeline(redis::Pipeline);

#[verifier::external_type_specification]
#[verifier::external_body]
pub struct ExClusterPipeline(redis::cluster::ClusterPipeline);

/// The pending "SET" commands of a single-endpoint pipeline, in order, as
/// (key, value) pairs.
pub uninterp spec fn single_pipe_view(p: redis::Pipeline) -> Seq<(Seq<char>, Seq<u8>)>;

/// The pending "SET" commands of a cluster pipeline, in order, as
/// (key, value) pairs.
pub uninterp spec fn cluster_pipe_view(p: redis::cluster::ClusterPipeline) -> Seq<
    (Seq<char>, Seq<u8>),
>;

/// Whether the endpoint URL passes the client's checks: redis::Client::open
/// performs a deterministic URL parse, with no I/O, so acceptance is a
/// function of the URL's characters alone.
pub uninterp spec fn single_url_ok(url: Seq<char>) -> bool;

/// Whether a node-endpoint list passes the cluster client's checks:
/// redis::cluster::ClusterClient::new parses the node URLs and checks their
/// credentials agree, with no I/O, so acceptance is a function of the list
/// alone.
pub uninterp spec fn cluster_nodes_ok(nodes: Seq<Seq<char>>) -> bool;

/// Relies on redis::Client::open, which parses the endpoint URL and builds a
/// client without connecting: it succeeds exactly when the URL parses.
#[verifier::external_body]
fn open_single_client(url: &str) -> (r: Result<redis::Client, String>)
    ensures
        r is Ok <==> single_url_ok(url@),
{
    match redis::Client::open(url) {
        Ok(c) => Ok(c),
        Err(e) => Err(format!("{}", e)),
    }
}

/// Relies on redis::cluster::ClusterClient::new, which checks the node URLs
/// and builds a client without connecting: it succeeds exactly when the node
/// list passes those checks.
#[verifier::external_body]
fn open_cluster_client(nodes: &Vec<String>) -> (r: Result<redis::cluster::ClusterClient, String>)
    ensures
        r is Ok <==> cluster_nodes_ok(string_views(nodes@)),
{
    match redis::cluster::ClusterClient::new(nodes.clone()) {
        Ok(c) => Ok(c),
        Err(e) => Err(format!("{}", e)),
    }
}

/// Relies on redis::Client::get_connection; the handle it returns is opaque,
/// and failure to connect is reported to the caller.
#[verifier::external_body]
fn connect_single(c: &redis::Client) -> (r: Result<redis::Connection, String>)
{
    match c.get_connection() {
        Ok(con) => Ok(con),
        Err(e) => Err(format!("{}", e)),
    }
}

/// Relies on redis::cluster::ClusterClient::get_connection; the handle it
/// returns is opaque, and failure to connect is reported to the caller.
#[verifier::external_body]
fn connect_cluster(c: &redis::cluster::ClusterClient) -> (r: Result<
    redis::cluster::ClusterConnection,
    String,
>)
{
    match c.get_connection() {
        Ok(con) => Ok(con),
        Err(e) => Err(format!("{}", e)),
    }
}

/// Relies on redis::pipe, which creates an empty pipeline.
#[verifier::external_body]
fn new_single_pipe() -> (p: redis::Pipeline)
    ensures
        single_pipe_view(p) == Seq::<(Seq<char>, Seq<u8>)>::empty(),
{
    redis::pipe()
}

/// Relies on redis::cluster::cluster_pipe, which creates an empty pipeline.
#[verifier::external_body]
fn new_cluster_pipe() -> (p: redis::cluster::ClusterPipeline)
    ensures
        cluster_pipe_view(p) == Seq::<(Seq<char>, Seq<u8>)>::empty(),
{
    redis::cluster::cluster_pipe()
}

/// Relies on Pipeline::cmd, arg and ignore: appends one "SET key value"
/// command whose reply will be discarded, after the commands already queued.
#[verifier::external_body]
fn single_pipe_add(p: &mut redis::Pipeline, key: &str, value: &Vec<u8>)
    ensures
        single_pipe_view(*final(p)) == single_pipe_view(*old(p)).push((key@, value@)),
{
    p.cmd("SET").arg(key).arg(&value[..]).ignore();
}

/// Relies on ClusterPipeline::cmd, arg and ignore: appends one
/// "SET key value" command whose reply will be discarded.
#[verifier::external_body]
fn cluster_pipe_add(p: &mut redis::cluster::ClusterPipeline, key: &str, value: &Vec<u8>)
    ensures
        cluster_pipe_view(*final(p)) == cluster_pipe_view(*old(p)).push((key@, value@)),
{
    p.cmd("SET").arg(key).arg(&value[..]).ignore();
}

/// Relies on Pipeline::len, which counts the queued commands.
#[verifier::external_body]
fn single_pipe_len(p: &redis::Pipeline) -> (n: usize)
    ensures
        n == single_pipe_view(*p).len(),
{
    p.len()
}

/// Relies on ClusterPipeline::cmd_iter, which walks the queued commands.
#[verifier::external_body]
fn cluster_pipe_len(p: &redis::cluster::ClusterPipeline) -> (n: usize)
    ensures
        n == cluster_pipe_view(*p).len(),
{
    p.cmd_iter().count()
}

/// Relies on Pipeline::query, which sends the queued commands over the
/// connection in one batch and waits for the replies.  Whether the store
/// accepted the batch is outside this crate; the pipeline itself is not
/// changed by the call.
#[verifier::external_body]
fn single_pipe_run(p: &redis::Pipeline, con: &mut redis::Connection) -> (r: Result<(), String>)
{
    match p.query::<()>(con) {
        Ok(()) => Ok(()),
        Err(e) => Err(format!("{}", e)),
    }
}

/// Relies on ClusterPipeline::query, which routes the queued commands to the
/// cluster and waits for the replies; the pipeline itself is not changed.
#[verifier::external_body]
fn cluster_pipe_run(
    p: &redis::cluster::ClusterPipeline,
    con: &mut redis::cluster::ClusterConnection,
) -> (r: Result<(), String>)
{
    match p.query::<()>(con) {
        Ok(()) => Ok(()),
        Err(e) => Err(format!("{}", e)),
    }
}

/// Relies on Pipeline::clear, which drops all queued commands.
#[verifier::external_body]
fn single_pipe_clear(p: &mut redis::Pipeline)
    ensures
        single_pipe_view(*final(p)) == Seq::<(Seq<char>, Seq<u8>)>::empty(),
{
    p.clear();
}

/// Relies on ClusterPipeline::clear, which drops all queued commands.
#[verifier::external_body]
fn cluster_pipe_clear(p: &mut redis::cluster::ClusterPipeline)
    ensures
        cluster_pipe_view(*final(p)) == Seq::<(Seq<char>, Seq<u8>)>::empty(),
{
    p.clear();
}

/// The process-wide client, in the variant the configuration selected.
pub enum RedisClientUnion {
    Single(redis::Client),
    Cluster(redis::cluster::ClusterClient),
}

impl RedisClientUnion {
    /// The variant this client was built in.
    pub open spec fn topology(self) -> Topology {
        match self {
            RedisClientUnion::Single(_) => Topology::Single,
            RedisClientUnion::Cluster(_) => Topology::Cluster,
        }
    }
}

/// The destination-store client shared read-only by every worker.
pub struct RedisClient {
    pub client: RedisClientUnion,
}

/// One worker's own connection, tagged with the variant it was opened in.
pub enum RedisConnection {
    Single(redis::Connection),
    Cluster(redis::cluster::ClusterConnection),
}

impl RedisConnection {
    /// The variant this connection was opened in.
    pub open spec fn variant(self) -> Topology {
        match self {
            RedisConnection::Single(_) => Topology::Single,
            RedisConnection::Cluster(_) => Topology::Cluster,
        }
    }
}

/// One worker's own pipeline of pending writes, tagged with its variant.
pub enum RedisPipeline {
    Single(redis::Pipeline),
    Cluster(redis::cluster::ClusterPipeline),
}

impl RedisPipeline {
    /// The variant this pipeline was created in.
    pub open spec fn variant(self) -> Topology {
        match self {
            RedisPipeline::Single(_) => Topology::Single,
            RedisPipeline::Cluster(_) => Topology::Cluster,
        }
    }

    /// The pending (key, value) writes, in order.
    pub open spec fn contents(self) -> Seq<(Seq<char>, Seq<u8>)> {
        match self {
            RedisPipeline::Single(p) => single_pipe_view(p),
            RedisPipeline::Cluster(p) => cluster_pipe_view(p),
        }
    }

    /// An empty pipeline of the given variant.
    pub fn for_topology(t: Topology) -> (p: RedisPipeline)
        ensures
            p.variant() == t,
            p.contents() == Seq::<(Seq<char>, Seq<u8>)>::empty(),
    {
        match t {
            Topology::Single => RedisPipeline::Single(new_single_pipe()),
            Topology::Cluster => RedisPipeline::Cluster(new_cluster_pipe()),
        }
    }

    /// The variant, for callers outside any proof.
    pub fn current_variant(&self) -> (t: Topology)
        ensures
            t == self.variant(),
    {
        match self {
            RedisPipeline::Single(_) => Topology::Single,
            RedisPipeline::Cluster(_) => Topology::Cluster,
        }
    }

    /// How many writes are pending.
    pub fn pending(&self) -> (n: usize)
        ensures
            n == self.contents().len(),
    {
        match self {
            RedisPipeline::Single(p) => single_pipe_len(p),
            RedisPipeline::Cluster(p) => cluster_pipe_len(p),
        }
    }

    /// Queues one "SET key value" command, reply discarded.
    pub fn add_set(&mut self, key: &str, value: &Vec<u8>)
        ensures
            final(self).variant() == old(self).variant(),
            final(self).contents() == old(self).contents().push((key@, value@)),
    {
        match self {
            RedisPipeline::Single(p) => single_pipe_add(p, key, value),
            RedisPipeline::Cluster(p) => cluster_pipe_add(p, key, value),
        }
    }

    /// Sends the pending writes over the matching connection in one batch,
    /// blocking until the store answers, and clears the pipeline on success.
    /// A failed batch is reported to the caller with the pipeline unchanged.
    pub fn flush(&mut self, con: &mut RedisConnection) -> (r: Result<(), String>)
        requires
            old(self).variant() == old(con).variant(),
        ensures
            final(self).variant() == old(self).variant(),
            final(con).variant() == old(con).variant(),
            r is Ok ==> final(self).contents() == Seq::<(Seq<char>, Seq<u8>)>::empty(),
            r is Err ==> final(self).contents() == old(self).contents(),
    {
        match (self, con) {
            (RedisPipeline::Single(p), RedisConnection::Single(c)) => {
                match single_pipe_run(p, c) {
                    Ok(()) => {
                        single_pipe_clear(p);
                        Ok(())
                    },
                    Err(e) => Err(e),
                }
            },
            (RedisPipeline::Cluster(p), RedisConnection::Cluster(c)) => {
                match cluster_pipe_run(p, c) {
                    Ok(()) => {
                        cluster_pipe_clear(p);
                        Ok(())
                    },
                    Err(e) => Err(e),
                }
            },
            _ => {
                proof {
                    assert(false);
                }
                Err(String::new())
            },
        }
    }
}

/// The mode string's view, if a mode was configured.
pub open spec fn mode_view(mode: Option<String>) -> Option<Seq<char>> {
    match mode {
        Some(m) => Some(m@),
        None => None,
    }
}

/// The topology the configuration selects: cluster exactly when the mode is
/// set to "cluster", single otherwise.
pub open spec fn topology_for_mode(mode: Option<Seq<char>>) -> Topology {
    if mode == Some("cluster"@) {
        Topology::Cluster
    } else {
        Topology::Single
    }
}

/// Decides the process topology from the configured mode.
pub fn topology_from_mode(mode: &Option<String>) -> (t: Topology)
    ensures
        t == topology_for_mode(mode_view(*mode)),
{
    match mode {
        Some(m) => {
            let pat: String = "cluster".to_owned();
            if m.eq(&pat) {
                Topology::Cluster
            } else {
                Topology::Single
            }
        },
        None => Topology::Single,
    }
}

/// Splitting an endpoint list on commas, with `cur` the partial entry read
/// so far.  Every comma separates two entries, so a list of n commas has
/// n + 1 entries.
pub open spec fn split_commas_acc(s: Seq<char>, cur: Seq<char>) -> Seq<Seq<char>>
    decreases s.len(),
{
    if s.len() == 0 {
        seq![cur]
    } else if s[0] == ',' {
        seq![cur] + split_commas_acc(s.drop_first(), Seq::empty())
    } else {
        split_commas_acc(s.drop_first(), cur.push(s[0]))
    }
}

/// The entries of a comma-separated endpoint list.
pub open spec fn split_commas(s: Seq<char>) -> Seq<Seq<char>> {
    split_commas_acc(s, Seq::empty())
}

/// The character views of a vector of strings.
pub open spec fn string_views(v: Seq<String>) -> Seq<Seq<char>> {
    v.map_values(|x: String| x@)
}

/// Splits a comma-separated endpoint list into its node endpoints.
pub fn split_nodes(url: &str) -> (r: Vec<String>)
    ensures
        string_views(r@) == split_commas(url@),
{
    let n = url.unicode_len();
    let mut out: Vec<String> = Vec::new();
    let mut start: usize = 0;
    let mut i: usize = 0;
    proof {
        assert(url@.skip(0) =~= url@);
        assert(url@.subrange(0, 0) =~= Seq::<char>::empty());
        assert(string_views(out@) + split_commas_acc(url@, Seq::empty()) =~= split_commas_acc(
            url@,
            Seq::empty(),
        ));
    }
    while i < n
        invariant
            start <= i <= n,
            n == url@.len(),
            split_commas(url@) == string_views(out@) + split_commas_acc(
                url@.skip(i as int),
                url@.subrange(start as int, i as int),
            ),
        decreases n - i,
    {
        let c = url.get_char(i);
        proof {
            assert(url@.skip(i as int)[0] == url@[i as int]);
            assert(url@.skip(i as int).drop_first() =~= url@.skip(i as int + 1));
        }
        if c == ',' {
            let part = url.substring_char(start, i).to_owned();
            proof {
                assert(string_views(out@.push(part)) =~= string_views(out@).push(part@));
                assert(string_views(out@).push(part@) =~= string_views(out@) + seq![part@]);
                assert(url@.subrange(i as int + 1, i as int + 1) =~= Seq::<char>::empty());
            }
            out.push(part);
            start = i + 1;
        } else {
            proof {
                assert(url@.subrange(start as int, i as int + 1) =~= url@.subrange(
                    start as int,
                    i as int,
                ).push(url@[i as int]));
            }
        }
        i += 1;
    }
    let last = url.substring_char(start, n).to_owned();
    proof {
        assert(url@.skip(n as int) =~= Seq::<char>::empty());
        assert(string_views(out@.push(last)) =~= string_views(out@).push(last@));
        assert(string_views(out@).push(last@) =~= string_views(out@) + seq![last@]);
    }
    out.push(last);
    out
}

impl RedisClient {
    /// The variant this client was built in.
    pub open spec fn topology(self) -> Topology {
        self.client.topology()
    }

    /// Builds the one process-wide client from configuration: the endpoint
    /// URL (a comma-separated node list in cluster mode) and the mode flag.
    /// The client it returns is in the topology the mode selects, and it is
    /// returned exactly when the URL — or, in cluster mode, its comma-split
    /// node list — passes the chosen client's checks.
    pub fn new(url: &str, mode: &Option<String>) -> (r: Result<RedisClient, String>)
        ensures
            r matches Ok(c) ==> c.topology() == topology_for_mode(mode_view(*mode)),
            r is Ok <==> (match topology_for_mode(mode_view(*mode)) {
                Topology::Single => single_url_ok(url@),
                Topology::Cluster => cluster_nodes_ok(split_commas(url@)),
            }),
    {
        match topology_from_mode(mode) {
            Topology::Cluster => {
                let nodes = split_nodes(url);
                match open_cluster_client(&nodes) {
                    Ok(c) => Ok(RedisClient { client: RedisClientUnion::Cluster(c) }),
                    Err(e) => Err(e),
                }
            },
            Topology::Single => {
                match open_single_client(url) {
                    Ok(c) => Ok(RedisClient { client: RedisClientUnion::Single(c) }),
                    Err(e) => Err(e),
                }
            },
        }
    }

    /// The topology, for callers outside any proof.
    pub fn current_topology(&self) -> (t: Topology)
        ensures
            t == self.topology(),
    {
        match &self.client {
            RedisClientUnion::Single(_) => Topology::Single,
            RedisClientUnion::Cluster(_) => Topology::Cluster,
        }
    }

    /// Opens this worker's own connection; its variant is the client's.
    /// Failure to connect is reported to the caller.
    pub fn get_connection(&self) -> (r: Result<RedisConnection, String>)
        ensures
            r matches Ok(c) ==> c.variant() == self.topology(),
    {
        match &self.client {
            RedisClientUnion::Single(c) => match connect_single(c) {
                Ok(con) => Ok(RedisConnection::Single(con)),
                Err(e) => Err(e),
            },
            RedisClientUnion::Cluster(c) => match connect_cluster(c) {
                Ok(con) => Ok(RedisConnection::Cluster(con)),
                Err(e) => Err(e),
            },
        }
    }

    /// An empty pipeline for this worker; its variant is the client's.
    pub fn make_pipeline(&self) -> (p: RedisPipeline)
        ensures
            p.variant() == self.topology(),
            p.contents() == Seq::<(Seq<char>, Seq<u8>)>::empty(),
    {
        RedisPipeline::for_topology(self.current_topology())
    }
}

} // verus!
