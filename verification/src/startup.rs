//! The start of the client, decision by decision. A [`Startup`] says what to do next; the caller
//! does it and reports how it went, until the client runs or the start has failed.

use crate::address::{listen_address, listen_segments, segments, Segment};
use crate::config::{RunOptions, RunOptionsView, RuntimeConfig, RuntimeConfigView, CLIENT_ROLE};
use crate::database::{database_plan, init_db, Access, DatabasePlan, DatabasePlanView};
use crate::launch::{launch_plan, plan_launch, LaunchPlan, LaunchPlanView};
use crate::logging::{
    is_ascii_text, level_named, log_setup, log_setup_for, uppercase, EventFormat, LogSetup,
    LogSetupView,
};
use crate::params::MAX_DEGREE;
use libp2p::Multiaddr;
use vstd::prelude::*;

verus! {

/// Why the start failed. All but the last variant name the step whose failure ended it.
#[derive(Clone, Copy, Debug, PartialEq, Eq, Structural)]
pub enum StartError {
    Database,
    Keypair,
    Telemetry,
    Network,
    Listening,
    Bootstrap,
    LastNodeRead,
    Connection,
    LastNodeStore,
    GenesisRead,
    GenesisStore,
    Head,
    /// The database belongs to another chain than the node.
    GenesisMismatch,
}

/// What is said in front of the cause of the failure, where anything is. A genesis mismatch has
/// no cause, and this is all that is said.
pub open spec fn context_of(error: StartError) -> Option<Seq<char>> {
    match error {
        StartError::Database => Some("Cannot initialize database at run"@),
        StartError::Telemetry => Some("Unable to initialize OpenTelemetry service"@),
        StartError::Network => Some("Failed to init Network Service"@),
        StartError::Listening => Some("Listening on UDP not to fail."@),
        StartError::Head => Some("Failed to get chain header"@),
        StartError::GenesisMismatch => Some(
            "Genesis hash doesn't match the stored one! Clear the db or change nodes."@,
        ),
        _ => None,
    }
}

impl StartError {
    /// What is said in front of the cause of the failure, where anything is.
    pub fn context(&self) -> (context: Option<&'static str>)
        ensures
            context.deep_view() == context_of(*self),
    {
        match self {
            StartError::Database => Some("Cannot initialize database at run"),
            StartError::Telemetry => Some("Unable to initialize OpenTelemetry service"),
            StartError::Network => Some("Failed to init Network Service"),
            StartError::Listening => Some("Listening on UDP not to fail."),
            StartError::Head => Some("Failed to get chain header"),
            StartError::GenesisMismatch => Some(
                "Genesis hash doesn't match the stored one! Clear the db or change nodes.",
            ),
            _ => None,
        }
    }
}

/// What the caller is asked to do.
#[derive(Debug)]
pub enum Action {
    /// Install the subscriber for the whole process, then write the warning, if there is one.
    InstallSubscriber(LogSetup),
    OpenDatabase(DatabasePlan),
    /// Derive the key pair of the client and its peer identifier.
    CreateKeypair,
    InitTelemetry { endpoint: String, role: String },
    InitNetwork {
        dht_parallelization_limit: usize,
        kad_record_ttl: u64,
        put_batch_size: usize,
        /// Delete the records that were stored locally: it keeps a fat client small.
        kad_remove_local_record: bool,
    },
    /// Start the task that drives the network.
    SpawnNetwork,
    Listen(Multiaddr),
    /// Join the network through the peers and wait for it.
    Bootstrap { peers: Vec<String> },
    LoadPublicParams { max_degree: u32 },
    /// Read from the database which full node was used last.
    ReadLastNode,
    /// Connect to a full node of the given network version, with regard to the one that was used
    /// last.
    Connect { full_nodes: Vec<String>, last_node: Option<String>, network_version: String },
    /// Write to the database which full node is used.
    StoreLastNode(String),
    /// Read from the database to which chain it belongs.
    ReadGenesisHash,
    /// Write to the database to which chain it belongs.
    StoreGenesisHash([u8; 32]),
    /// Ask the node for the newest header.
    FetchHead,
    /// Make the shared state and the channels, then take the steps of the plan in order.
    Launch(LaunchPlan),
    /// The client runs: return the shared state and the database.
    Finish,
    /// The start has failed: return the error.
    Fail(StartError),
}

/// What an [`Action`] says.
pub enum ActionView {
    InstallSubscriber(LogSetupView),
    OpenDatabase(DatabasePlanView),
    CreateKeypair,
    InitTelemetry { endpoint: Seq<char>, role: Seq<char> },
    InitNetwork {
        dht_parallelization_limit: usize,
        kad_record_ttl: u64,
        put_batch_size: usize,
        kad_remove_local_record: bool,
    },
    SpawnNetwork,
    Listen(Seq<Segment>),
    Bootstrap { peers: Seq<Seq<char>> },
    LoadPublicParams { max_degree: u32 },
    ReadLastNode,
    Connect {
        full_nodes: Seq<Seq<char>>,
        last_node: Option<Seq<char>>,
        network_version: Seq<char>,
    },
    StoreLastNode(Seq<char>),
    ReadGenesisHash,
    StoreGenesisHash(Seq<u8>),
    FetchHead,
    Launch(LaunchPlanView),
    Finish,
    Fail(StartError),
}

impl View for Action {
    type V = ActionView;

    open spec fn view(&self) -> ActionView {
        match self {
            Action::InstallSubscriber(setup) => ActionView::InstallSubscriber(setup@),
            Action::OpenDatabase(plan) => ActionView::OpenDatabase(plan@),
            Action::CreateKeypair => ActionView::CreateKeypair,
            Action::InitTelemetry { endpoint, role } => ActionView::InitTelemetry {
                endpoint: endpoint@,
                role: role@,
            },
            Action::InitNetwork {
                dht_parallelization_limit,
                kad_record_ttl,
                put_batch_size,
                kad_remove_local_record,
            } => ActionView::InitNetwork {
                dht_parallelization_limit: *dht_parallelization_limit,
                kad_record_ttl: *kad_record_ttl,
                put_batch_size: *put_batch_size,
                kad_remove_local_record: *kad_remove_local_record,
            },
            Action::SpawnNetwork => ActionView::SpawnNetwork,
            Action::Listen(address) => ActionView::Listen(segments(*address)),
            Action::Bootstrap { peers } => ActionView::Bootstrap { peers: peers.deep_view() },
            Action::LoadPublicParams { max_degree } => ActionView::LoadPublicParams {
                max_degree: *max_degree,
            },
            Action::ReadLastNode => ActionView::ReadLastNode,
            Action::Connect { full_nodes, last_node, network_version } => ActionView::Connect {
                full_nodes: full_nodes.deep_view(),
                last_node: last_node.deep_view(),
                network_version: network_version@,
            },
            Action::StoreLastNode(host) => ActionView::StoreLastNode(host@),
            Action::ReadGenesisHash => ActionView::ReadGenesisHash,
            Action::StoreGenesisHash(hash) => ActionView::StoreGenesisHash(hash@),
            Action::FetchHead => ActionView::FetchHead,
            Action::Launch(plan) => ActionView::Launch(plan@),
            Action::Finish => ActionView::Finish,
            Action::Fail(error) => ActionView::Fail(*error),
        }
    }
}

/// How an action went.
#[derive(Debug)]
pub enum Reply {
    /// It was done, and there is nothing more to say.
    Done,
    /// It failed.
    Failed,
    /// The full node that was used last, if the database knows one.
    LastNode(Option<String>),
    /// The node that the client is connected to, and its chain.
    Connected { host: String, genesis_hash: [u8; 32] },
    /// The chain that the database belongs to, if it is known.
    StoredGenesis(Option<[u8; 32]>),
    /// The number of the newest block.
    Head(u32),
}

/// What a [`Reply`] says.
pub enum ReplyView {
    Done,
    Failed,
    LastNode(Option<Seq<char>>),
    Connected { host: Seq<char>, genesis_hash: Seq<u8> },
    StoredGenesis(Option<Seq<u8>>),
    Head(u32),
}

impl View for Reply {
    type V = ReplyView;

    open spec fn view(&self) -> ReplyView {
        match self {
            Reply::Done => ReplyView::Done,
            Reply::Failed => ReplyView::Failed,
            Reply::LastNode(last_node) => ReplyView::LastNode(last_node.deep_view()),
            Reply::Connected { host, genesis_hash } => ReplyView::Connected {
                host: host@,
                genesis_hash: genesis_hash@,
            },
            Reply::StoredGenesis(stored) => ReplyView::StoredGenesis(
                match stored {
                    Some(hash) => Some(hash@),
                    None => None,
                },
            ),
            Reply::Head(number) => ReplyView::Head(*number),
        }
    }
}

/// How far the start has come, by the action that is under way.
#[derive(Clone, Copy, Debug, PartialEq, Eq, Structural)]
pub enum Stage {
    Subscriber,
    Database,
    Keypair,
    Telemetry,
    Network,
    NetworkTask,
    Listening,
    Bootstrap,
    PublicParams,
    LastNodeRead,
    Connection,
    LastNodeStore,
    GenesisRead,
    GenesisStore,
    Head,
    Launch,
    Finished,
    Failed,
}

/// A start of the client.
#[derive(Debug)]
pub struct Startup {
    options: RunOptions,
    config: RuntimeConfig,
    stage: Stage,
    /// The chain of the node, once the client is connected to one.
    genesis_hash: Option<[u8; 32]>,
}

/// What a [`Startup`] knows.
pub struct StartupView {
    pub options: RunOptionsView,
    pub config: RuntimeConfigView,
    pub stage: Stage,
    pub genesis_hash: Option<Seq<u8>>,
}

impl View for Startup {
    type V = StartupView;

    closed spec fn view(&self) -> StartupView {
        StartupView {
            options: self.options@,
            config: self.config@,
            stage: self.stage,
            genesis_hash: match self.genesis_hash {
                Some(hash) => Some(hash@),
                None => None,
            },
        }
    }
}

/// The chain of the node is known while it is compared with that of the database.
pub open spec fn consistent(m: StartupView) -> bool {
    (m.stage == Stage::LastNodeStore || m.stage == Stage::GenesisRead) ==> m.genesis_hash is Some
}

/// How the log is set up for a configuration.
pub open spec fn configured_log(config: RuntimeConfigView) -> LogSetupView {
    log_setup_for(level_named(uppercase(config.log_level)), config.log_format_json)
}

/// The error that a failed action ends the start with. An action that cannot fail has none.
pub open spec fn failure_at(stage: Stage) -> Option<StartError> {
    match stage {
        Stage::Database => Some(StartError::Database),
        Stage::Keypair => Some(StartError::Keypair),
        Stage::Telemetry => Some(StartError::Telemetry),
        Stage::Network => Some(StartError::Network),
        Stage::Listening => Some(StartError::Listening),
        Stage::Bootstrap => Some(StartError::Bootstrap),
        Stage::LastNodeRead => Some(StartError::LastNodeRead),
        Stage::Connection => Some(StartError::Connection),
        Stage::LastNodeStore => Some(StartError::LastNodeStore),
        Stage::GenesisRead => Some(StartError::GenesisRead),
        Stage::GenesisStore => Some(StartError::GenesisStore),
        Stage::Head => Some(StartError::Head),
        _ => None,
    }
}

pub open spec fn open_action(config: RuntimeConfigView) -> ActionView {
    ActionView::OpenDatabase(database_plan(config.avail_path, false))
}

/// The state and the action that a start begins with.
pub open spec fn begun(
    options: RunOptionsView,
    config: RuntimeConfigView,
) -> (StartupView, ActionView) {
    let at = |stage: Stage| StartupView { options, config, stage, genesis_hash: None };
    if options.set_parser {
        (at(Stage::Subscriber), ActionView::InstallSubscriber(configured_log(config)))
    } else {
        (at(Stage::Database), open_action(config))
    }
}

/// The state and the action that follow a reply. A reply that does not answer the action that is
/// under way has none.
pub open spec fn answered(m: StartupView, reply: ReplyView) -> Option<(StartupView, ActionView)> {
    let config = m.config;
    let to = |stage: Stage, action: ActionView| Some((StartupView { stage, ..m }, action));
    let fail = |error: StartError| to(Stage::Failed, ActionView::Fail(error));
    match (m.stage, reply) {
        (_, ReplyView::Failed) => match failure_at(m.stage) {
            Some(error) => fail(error),
            None => None,
        },
        (Stage::Subscriber, ReplyView::Done) => to(Stage::Database, open_action(config)),
        (Stage::Database, ReplyView::Done) => to(Stage::Keypair, ActionView::CreateKeypair),
        (Stage::Keypair, ReplyView::Done) => to(
            Stage::Telemetry,
            ActionView::InitTelemetry {
                endpoint: config.ot_collector_endpoint,
                role: CLIENT_ROLE@,
            },
        ),
        (Stage::Telemetry, ReplyView::Done) => to(
            Stage::Network,
            ActionView::InitNetwork {
                dht_parallelization_limit: config.dht_parallelization_limit,
                kad_record_ttl: config.kad_record_ttl,
                put_batch_size: config.put_batch_size,
                kad_remove_local_record: config.has_block_matrix_partition,
            },
        ),
        (Stage::Network, ReplyView::Done) => to(Stage::NetworkTask, ActionView::SpawnNetwork),
        (Stage::NetworkTask, ReplyView::Done) => to(
            Stage::Listening,
            ActionView::Listen(listen_segments(config.port)),
        ),
        (Stage::Listening, ReplyView::Done) => to(
            Stage::Bootstrap,
            ActionView::Bootstrap { peers: config.bootstraps },
        ),
        (Stage::Bootstrap, ReplyView::Done) => to(
            Stage::PublicParams,
            ActionView::LoadPublicParams { max_degree: MAX_DEGREE },
        ),
        (Stage::PublicParams, ReplyView::Done) => to(Stage::LastNodeRead, ActionView::ReadLastNode),
        (Stage::LastNodeRead, ReplyView::LastNode(last_node)) => to(
            Stage::Connection,
            ActionView::Connect {
                full_nodes: config.full_node_ws,
                last_node,
                network_version: m.options.network_version,
            },
        ),
        (Stage::Connection, ReplyView::Connected { host, genesis_hash }) => Some(
            (
                StartupView {
                    stage: Stage::LastNodeStore,
                    genesis_hash: Some(genesis_hash),
                    ..m
                },
                ActionView::StoreLastNode(host),
            ),
        ),
        (Stage::LastNodeStore, ReplyView::Done) => to(
            Stage::GenesisRead,
            ActionView::ReadGenesisHash,
        ),
        (Stage::GenesisRead, ReplyView::StoredGenesis(None)) => to(
            Stage::GenesisStore,
            ActionView::StoreGenesisHash(m.genesis_hash->0),
        ),
        (Stage::GenesisRead, ReplyView::StoredGenesis(Some(stored))) => if stored
            == m.genesis_hash->0 {
            to(Stage::Head, ActionView::FetchHead)
        } else {
            fail(StartError::GenesisMismatch)
        },
        (Stage::GenesisStore, ReplyView::Done) => to(Stage::Head, ActionView::FetchHead),
        (Stage::Head, ReplyView::Head(latest)) => to(
            Stage::Launch,
            ActionView::Launch(launch_plan(m.options, config, latest)),
        ),
        (Stage::Launch, ReplyView::Done) => to(Stage::Finished, ActionView::Finish),
        _ => None,
    }
}

fn same_hash(a: &[u8; 32], b: &[u8; 32]) -> (same: bool)
    ensures
        same == (a@ == b@),
{
    let mut i: usize = 0;
    while i < 32
        invariant
            i <= 32,
            forall|j: int| 0 <= j < i ==> a@[j] == b@[j],
        decreases 32 - i,
    {
        if a[i] != b[i] {
            return false;
        }
        i = i + 1;
    }
    assert(a@ =~= b@);
    true
}

fn start_error(stage: Stage) -> (error: Option<StartError>)
    ensures
        error == failure_at(stage),
{
    match stage {
        Stage::Database => Some(StartError::Database),
        Stage::Keypair => Some(StartError::Keypair),
        Stage::Telemetry => Some(StartError::Telemetry),
        Stage::Network => Some(StartError::Network),
        Stage::Listening => Some(StartError::Listening),
        Stage::Bootstrap => Some(StartError::Bootstrap),
        Stage::LastNodeRead => Some(StartError::LastNodeRead),
        Stage::Connection => Some(StartError::Connection),
        Stage::LastNodeStore => Some(StartError::LastNodeStore),
        Stage::GenesisRead => Some(StartError::GenesisRead),
        Stage::GenesisStore => Some(StartError::GenesisStore),
        Stage::Head => Some(StartError::Head),
        _ => None,
    }
}

/// Begins a start of the client and says what to do first.
pub fn run(options: RunOptions, cfg: RuntimeConfig) -> (begin: (Startup, Action))
    ensures
        (begin.0@, begin.1@) == begun(options@, cfg@),
        begin.0@.options == options@,
        begin.0@.config == cfg@,
        options.set_parser <==> begin.1 is InstallSubscriber,
        !options.set_parser <==> begin.1 is OpenDatabase,
        begin.1 matches Action::OpenDatabase(plan) ==> plan.path@ == cfg.avail_path@ && plan.access
            == Access::ReadWrite,
        begin.1 matches Action::InstallSubscriber(setup) ==> (setup.subscriber.format
            == EventFormat::Json <==> cfg.log_format_json),
        options.set_parser && is_ascii_text(cfg.log_level@) ==> begin.1@
            == ActionView::InstallSubscriber(
            log_setup_for(level_named(cfg.log_level@), cfg.log_format_json),
        ),
{
    if options.set_parser {
        let setup = log_setup(cfg.log_level.as_str(), cfg.log_format_json);
        let startup = Startup {
            options,
            config: cfg,
            stage: Stage::Subscriber,
            genesis_hash: None,
        };
        (startup, Action::InstallSubscriber(setup))
    } else {
        let plan = init_db(cfg.avail_path.as_str(), false);
        let startup = Startup { options, config: cfg, stage: Stage::Database, genesis_hash: None };
        (startup, Action::OpenDatabase(plan))
    }
}

impl Startup {
    #[verifier::type_invariant]
    closed spec fn knows_chain(&self) -> bool {
        consistent(self@)
    }

    /// Takes the reply to the action that is under way and says what to do next. A reply that
    /// does not answer that action changes nothing, and there is nothing to do.
    pub fn next(&mut self, reply: Reply) -> (action: Option<Action>)
        ensures
            match answered(old(self)@, reply@) {
                Some((state, todo)) => final(self)@ == state && action is Some && action->0@
                    == todo,
                None => final(self)@ == old(self)@ && action is None,
            },
            final(self)@.options == old(self)@.options,
            final(self)@.config == old(self)@.config,
            action matches Some(Action::OpenDatabase(plan)) ==> plan.path@
                == old(self)@.config.avail_path && plan.access == Access::ReadWrite,
            action matches Some(
                Action::InitTelemetry { endpoint, role },
            ) ==> endpoint@ == old(self)@.config.ot_collector_endpoint && role@ == "lightnode"@,
            action matches Some(
                Action::InitNetwork {
                    dht_parallelization_limit,
                    kad_record_ttl,
                    put_batch_size,
                    kad_remove_local_record,
                },
            ) ==> {
                &&& dht_parallelization_limit == old(self)@.config.dht_parallelization_limit
                &&& kad_record_ttl == old(self)@.config.kad_record_ttl
                &&& put_batch_size == old(self)@.config.put_batch_size
                &&& kad_remove_local_record <==> old(self)@.config.has_block_matrix_partition
            },
            action matches Some(Action::Bootstrap { peers }) ==> peers.deep_view()
                == old(self)@.config.bootstraps,
            action matches Some(Action::LoadPublicParams { max_degree }) ==> max_degree == 1024,
            action matches Some(
                Action::Connect { full_nodes, last_node, network_version },
            ) ==> {
                &&& reply matches Reply::LastNode(told)
                &&& last_node.deep_view() == told.deep_view()
                &&& full_nodes.deep_view() == old(self)@.config.full_node_ws
                &&& network_version@ == old(self)@.options.network_version
            },
            action matches Some(Action::StoreLastNode(noted)) ==> {
                &&& reply matches Reply::Connected { host, genesis_hash }
                &&& noted@ == host@
                &&& final(self)@.genesis_hash == Some(genesis_hash@)
            },
            action matches Some(Action::StoreGenesisHash(hash)) ==> reply@
                == ReplyView::StoredGenesis(None) && old(self)@.genesis_hash == Some(hash@),
            action matches Some(Action::Launch(plan)) ==> reply@ == ReplyView::Head(plan.latest),
            action matches Some(Action::Fail(error)) ==> reply is Failed || error
                == StartError::GenesisMismatch,
    {
        proof {
            use_type_invariant(&*self);
        }
        match (self.stage, reply) {
            (stage, Reply::Failed) => match start_error(stage) {
                Some(error) => {
                    self.stage = Stage::Failed;
                    Some(Action::Fail(error))
                },
                None => None,
            },
            (Stage::Subscriber, Reply::Done) => {
                let plan = init_db(self.config.avail_path.as_str(), false);
                self.stage = Stage::Database;
                Some(Action::OpenDatabase(plan))
            },
            (Stage::Database, Reply::Done) => {
                self.stage = Stage::Keypair;
                Some(Action::CreateKeypair)
            },
            (Stage::Keypair, Reply::Done) => {
                self.stage = Stage::Telemetry;
                Some(
                    Action::InitTelemetry {
                        endpoint: self.config.ot_collector_endpoint.clone(),
                        role: CLIENT_ROLE.to_owned(),
                    },
                )
            },
            (Stage::Telemetry, Reply::Done) => {
                self.stage = Stage::Network;
                Some(
                    Action::InitNetwork {
                        dht_parallelization_limit: self.config.dht_parallelization_limit,
                        kad_record_ttl: self.config.kad_record_ttl,
                        put_batch_size: self.config.put_batch_size,
                        kad_remove_local_record: self.config.has_block_matrix_partition,
                    },
                )
            },
            (Stage::Network, Reply::Done) => {
                self.stage = Stage::NetworkTask;
                Some(Action::SpawnNetwork)
            },
            (Stage::NetworkTask, Reply::Done) => {
                let address = listen_address(self.config.port);
                self.stage = Stage::Listening;
                Some(Action::Listen(address))
            },
            (Stage::Listening, Reply::Done) => {
                let peers = self.config.bootstraps.clone();
                assert(peers.deep_view() =~= self.config.bootstraps.deep_view());
                self.stage = Stage::Bootstrap;
                Some(Action::Bootstrap { peers })
            },
            (Stage::Bootstrap, Reply::Done) => {
                self.stage = Stage::PublicParams;
                Some(Action::LoadPublicParams { max_degree: MAX_DEGREE })
            },
            (Stage::PublicParams, Reply::Done) => {
                self.stage = Stage::LastNodeRead;
                Some(Action::ReadLastNode)
            },
            (Stage::LastNodeRead, Reply::LastNode(last_node)) => {
                let full_nodes = self.config.full_node_ws.clone();
                assert(full_nodes.deep_view() =~= self.config.full_node_ws.deep_view());
                let network_version = self.options.network_version.clone();
                self.stage = Stage::Connection;
                Some(Action::Connect { full_nodes, last_node, network_version })
            },
            (Stage::Connection, Reply::Connected { host, genesis_hash }) => {
                self.genesis_hash = Some(genesis_hash);
                self.stage = Stage::LastNodeStore;
                Some(Action::StoreLastNode(host))
            },
            (Stage::LastNodeStore, Reply::Done) => {
                self.stage = Stage::GenesisRead;
                Some(Action::ReadGenesisHash)
            },
            (Stage::GenesisRead, Reply::StoredGenesis(stored)) => {
                let genesis_hash = self.genesis_hash.unwrap();
                match stored {
                    None => {
                        self.stage = Stage::GenesisStore;
                        Some(Action::StoreGenesisHash(genesis_hash))
                    },
                    Some(stored) => if same_hash(&genesis_hash, &stored) {
                        self.stage = Stage::Head;
                        Some(Action::FetchHead)
                    } else {
                        self.stage = Stage::Failed;
                        Some(Action::Fail(StartError::GenesisMismatch))
                    },
                }
            },
            (Stage::GenesisStore, Reply::Done) => {
                self.stage = Stage::Head;
                Some(Action::FetchHead)
            },
            (Stage::Head, Reply::Head(latest)) => {
                let plan = plan_launch(&self.options, &self.config, latest);
                self.stage = Stage::Launch;
                Some(Action::Launch(plan))
            },
            (Stage::Launch, Reply::Done) => {
                self.stage = Stage::Finished;
                Some(Action::Finish)
            },
            _ => None,
        }
    }
}

} // verus!
