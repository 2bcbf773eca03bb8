//! What a start of the client is given.

use vstd::prelude::*;

verus! {

/// The role under which the client reports its metrics.
pub const CLIENT_ROLE: &'static str = "lightnode";

/// What the client does besides sampling blocks.
#[derive(Clone, Copy, Debug, PartialEq, Eq, Structural)]
pub enum Mode {
    /// Nothing.
    LightClient,
    /// It also follows the data of one application.
    AppClient(u32),
}

/// The part of the configuration that the start of the client reads.
#[derive(Debug)]
pub struct RuntimeConfig {
    pub log_level: String,
    pub log_format_json: bool,
    /// Where the database lies.
    pub avail_path: String,
    /// The client fetches a part of each block matrix: it is a fat client.
    pub has_block_matrix_partition: bool,
    pub ot_collector_endpoint: String,
    pub dht_parallelization_limit: usize,
    pub kad_record_ttl: u64,
    pub put_batch_size: usize,
    pub port: u16,
    /// The peers through which the client joins the network, each as the configuration writes it.
    pub bootstraps: Vec<String>,
    /// The full nodes to try.
    pub full_node_ws: Vec<String>,
    pub mode: Mode,
    /// The first block to catch up on.
    pub sync_start_block: Option<u32>,
    pub crawl_block: bool,
    pub crawl_block_delay: u64,
    /// What the crawler fetches of a block, as the configuration writes it.
    pub crawl_block_mode: String,
}

/// What a [`RuntimeConfig`] says.
pub struct RuntimeConfigView {
    pub log_level: Seq<char>,
    pub log_format_json: bool,
    pub avail_path: Seq<char>,
    pub has_block_matrix_partition: bool,
    pub ot_collector_endpoint: Seq<char>,
    pub dht_parallelization_limit: usize,
    pub kad_record_ttl: u64,
    pub put_batch_size: usize,
    pub port: u16,
    pub bootstraps: Seq<Seq<char>>,
    pub full_node_ws: Seq<Seq<char>>,
    pub mode: Mode,
    pub sync_start_block: Option<u32>,
    pub crawl_block: bool,
    pub crawl_block_delay: u64,
    pub crawl_block_mode: Seq<char>,
}

impl View for RuntimeConfig {
    type V = RuntimeConfigView;

    open spec fn view(&self) -> RuntimeConfigView {
        RuntimeConfigView {
            log_level: self.log_level@,
            log_format_json: self.log_format_json,
            avail_path: self.avail_path@,
            has_block_matrix_partition: self.has_block_matrix_partition,
            ot_collector_endpoint: self.ot_collector_endpoint@,
            dht_parallelization_limit: self.dht_parallelization_limit,
            kad_record_ttl: self.kad_record_ttl,
            put_batch_size: self.put_batch_size,
            port: self.port,
            bootstraps: self.bootstraps.deep_view(),
            full_node_ws: self.full_node_ws.deep_view(),
            mode: self.mode,
            sync_start_block: self.sync_start_block,
            crawl_block: self.crawl_block,
            crawl_block_delay: self.crawl_block_delay,
            crawl_block_mode: self.crawl_block_mode@,
        }
    }
}

/// How the caller wants the client started, and what the client was built with.
#[derive(Debug)]
pub struct RunOptions {
    /// Serve the HTTP interface.
    pub server_needed: bool,
    /// Return only when the light client has ended.
    pub await_run: bool,
    /// Install the log subscriber.
    pub set_parser: bool,
    /// The caller gave a function to call with each message.
    pub has_callback: bool,
    /// Version 2 of the interface is built in.
    pub api_v2: bool,
    /// The crawler is built in.
    pub crawl: bool,
    /// The version of the client.
    pub version: String,
    /// The version of the network that the client is built for.
    pub network_version: String,
}

/// What [`RunOptions`] say.
pub struct RunOptionsView {
    pub server_needed: bool,
    pub await_run: bool,
    pub set_parser: bool,
    pub has_callback: bool,
    pub api_v2: bool,
    pub crawl: bool,
    pub version: Seq<char>,
    pub network_version: Seq<char>,
}

impl View for RunOptions {
    type V = RunOptionsView;

    open spec fn view(&self) -> RunOptionsView {
        RunOptionsView {
            server_needed: self.server_needed,
            await_run: self.await_run,
            set_parser: self.set_parser,
            has_callback: self.has_callback,
            api_v2: self.api_v2,
            crawl: self.crawl,
            version: self.version@,
            network_version: self.network_version@,
        }
    }
}

/// A configuration is seen with all that it holds.
pub proof fn a_configuration_is_seen_whole(config: RuntimeConfig)
    ensures
        config@.log_level == config.log_level@,
        config@.log_format_json <==> config.log_format_json,
        config@.avail_path == config.avail_path@,
        config@.has_block_matrix_partition <==> config.has_block_matrix_partition,
        config@.ot_collector_endpoint == config.ot_collector_endpoint@,
        config@.dht_parallelization_limit == config.dht_parallelization_limit,
        config@.kad_record_ttl == config.kad_record_ttl,
        config@.put_batch_size == config.put_batch_size,
        config@.port == config.port,
        config@.bootstraps == config.bootstraps.deep_view(),
        config@.full_node_ws == config.full_node_ws.deep_view(),
        config@.mode == config.mode,
        config@.sync_start_block == config.sync_start_block,
        config@.crawl_block <==> config.crawl_block,
        config@.crawl_block_delay == config.crawl_block_delay,
        config@.crawl_block_mode == config.crawl_block_mode@,
{
}

/// The options are seen with all that they hold.
pub proof fn options_are_seen_whole(options: RunOptions)
    ensures
        options@.server_needed <==> options.server_needed,
        options@.await_run <==> options.await_run,
        options@.set_parser <==> options.set_parser,
        options@.has_callback <==> options.has_callback,
        options@.api_v2 <==> options.api_v2,
        options@.crawl <==> options.crawl,
        options@.version == options.version@,
        options@.network_version == options.network_version@,
{
}

} // verus!
