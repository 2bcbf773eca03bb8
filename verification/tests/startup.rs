use light_client_commons::config::{Mode, RunOptions, RuntimeConfig};
use light_client_commons::database::Access;
use light_client_commons::launch::Launch;
use light_client_commons::logging::{EventFormat, Level, LEVEL_ERROR_TEXT};
use light_client_commons::run;
use light_client_commons::startup::{Action, Reply, StartError, Startup};

fn config() -> RuntimeConfig {
    RuntimeConfig {
        log_level: "debug".to_string(),
        log_format_json: true,
        avail_path: "avail_path".to_string(),
        has_block_matrix_partition: true,
        ot_collector_endpoint: "http://127.0.0.1:4317".to_string(),
        dht_parallelization_limit: 20,
        kad_record_ttl: 86400,
        put_batch_size: 1000,
        port: 37000,
        bootstraps: vec!["/ip4/10.0.0.1/udp/1".to_string(), "/ip4/10.0.0.2/udp/2".to_string()],
        full_node_ws: vec!["ws://a:9944".to_string(), "ws://b:9944".to_string()],
        mode: Mode::LightClient,
        sync_start_block: None,
        crawl_block: false,
        crawl_block_delay: 20,
        crawl_block_mode: "cells".to_string(),
    }
}

fn options(set_parser: bool) -> RunOptions {
    RunOptions {
        server_needed: false,
        await_run: true,
        set_parser,
        has_callback: false,
        api_v2: false,
        crawl: false,
        version: "1.7.3".to_string(),
        network_version: "1.6/data-avail".to_string(),
    }
}

fn genesis(byte: u8) -> [u8; 32] {
    let mut hash = [0u8; 32];
    hash[31] = byte;
    hash
}

fn name(action: &Action) -> &'static str {
    match action {
        Action::InstallSubscriber(_) => "subscriber",
        Action::OpenDatabase(_) => "database",
        Action::CreateKeypair => "keypair",
        Action::InitTelemetry { .. } => "telemetry",
        Action::InitNetwork { .. } => "network",
        Action::SpawnNetwork => "network task",
        Action::Listen(_) => "listen",
        Action::Bootstrap { .. } => "bootstrap",
        Action::LoadPublicParams { .. } => "params",
        Action::ReadLastNode => "read node",
        Action::Connect { .. } => "connect",
        Action::StoreLastNode(_) => "store node",
        Action::ReadGenesisHash => "read genesis",
        Action::StoreGenesisHash(_) => "store genesis",
        Action::FetchHead => "head",
        Action::Launch(_) => "launch",
        Action::Finish => "finish",
        Action::Fail(_) => "fail",
    }
}

/// What the outside answers where everything works.
fn good_reply(action: &Action, stored: Option<[u8; 32]>) -> Reply {
    match action {
        Action::ReadLastNode => Reply::LastNode(Some("ws://b:9944".to_string())),
        Action::Connect { .. } => {
            Reply::Connected { host: "ws://b:9944".to_string(), genesis_hash: genesis(1) }
        }
        Action::ReadGenesisHash => Reply::StoredGenesis(stored),
        Action::FetchHead => Reply::Head(42),
        _ => Reply::Done,
    }
}

/// Runs a start where everything works up to the action with the given name.
fn run_to(
    set_parser: bool,
    stored: Option<[u8; 32]>,
    stop: &str,
) -> (Startup, Action, Vec<&'static str>) {
    let (mut startup, mut action) = run(options(set_parser), config());
    let mut names = vec![name(&action)];
    while name(&action) != stop {
        let reply = good_reply(&action, stored);
        action = startup.next(reply).expect("the reply answers the action");
        names.push(name(&action));
    }
    (startup, action, names)
}

#[test]
fn a_first_start_takes_every_step() {
    let (_, _, names) = run_to(true, None, "finish");
    assert_eq!(
        names,
        vec![
            "subscriber", "database", "keypair", "telemetry", "network", "network task", "listen",
            "bootstrap", "params", "read node", "connect", "store node", "read genesis",
            "store genesis", "head", "launch", "finish",
        ]
    );
}

#[test]
fn a_later_start_on_the_same_chain_stores_no_genesis() {
    let (_, _, names) = run_to(false, Some(genesis(1)), "finish");
    assert_eq!(
        names,
        vec![
            "database", "keypair", "telemetry", "network", "network task", "listen", "bootstrap",
            "params", "read node", "connect", "store node", "read genesis", "head", "launch",
            "finish",
        ]
    );
}

#[test]
fn a_node_on_another_chain_is_refused() {
    let (mut startup, _, _) = run_to(false, None, "read genesis");
    let action = startup.next(Reply::StoredGenesis(Some(genesis(2)))).unwrap();
    assert!(matches!(action, Action::Fail(StartError::GenesisMismatch)));
    assert_eq!(
        StartError::GenesisMismatch.context(),
        Some("Genesis hash doesn't match the stored one! Clear the db or change nodes.")
    );
    assert!(startup.next(Reply::Done).is_none());
    assert!(startup.next(Reply::Failed).is_none());
}

#[test]
fn a_difference_in_the_first_byte_is_seen() {
    let (mut startup, _, _) = run_to(false, None, "read genesis");
    let mut other = genesis(1);
    other[0] = 1;
    let action = startup.next(Reply::StoredGenesis(Some(other))).unwrap();
    assert!(matches!(action, Action::Fail(StartError::GenesisMismatch)));
}

#[test]
fn a_database_is_bound_to_the_first_chain() {
    let (_, action, _) = run_to(false, None, "store genesis");
    match action {
        Action::StoreGenesisHash(hash) => assert_eq!(hash, genesis(1)),
        _ => unreachable!(),
    }
    let (mut later, _, _) = run_to(false, Some(genesis(1)), "read genesis");
    assert!(matches!(later.next(Reply::StoredGenesis(Some(genesis(1)))), Some(Action::FetchHead)));
}

#[test]
fn the_log_is_set_up_first() {
    let (_, action, _) = run_to(true, None, "subscriber");
    match action {
        Action::InstallSubscriber(setup) => {
            assert_eq!(setup.subscriber.max_level, Level::Debug);
            assert_eq!(setup.subscriber.format, EventFormat::Json);
            assert!(setup.warning.is_none());
        }
        _ => unreachable!(),
    }
    let mut config = config();
    config.log_level = "loud".to_string();
    match run(options(true), config).1 {
        Action::InstallSubscriber(setup) => {
            assert_eq!(setup.subscriber.max_level, Level::Info);
            assert_eq!(setup.warning.unwrap().message, LEVEL_ERROR_TEXT);
        }
        _ => unreachable!(),
    }
}

#[test]
fn the_configuration_reaches_the_actions() {
    match run_to(false, None, "database").1 {
        Action::OpenDatabase(plan) => {
            assert_eq!(plan.path, "avail_path");
            assert_eq!(plan.access, Access::ReadWrite);
        }
        _ => unreachable!(),
    }
    match run_to(true, None, "database").1 {
        Action::OpenDatabase(plan) => assert_eq!(plan.path, "avail_path"),
        _ => unreachable!(),
    }
    match run_to(false, None, "telemetry").1 {
        Action::InitTelemetry { endpoint, role } => {
            assert_eq!(endpoint, "http://127.0.0.1:4317");
            assert_eq!(role, "lightnode");
        }
        _ => unreachable!(),
    }
    match run_to(false, None, "network").1 {
        Action::InitNetwork {
            dht_parallelization_limit,
            kad_record_ttl,
            put_batch_size,
            kad_remove_local_record,
        } => {
            assert_eq!(dht_parallelization_limit, 20);
            assert_eq!(kad_record_ttl, 86400);
            assert_eq!(put_batch_size, 1000);
            assert!(kad_remove_local_record);
        }
        _ => unreachable!(),
    }
    match run_to(false, None, "listen").1 {
        Action::Listen(address) => {
            assert_eq!(address.to_string(), "/ip4/0.0.0.0/udp/37000/quic-v1")
        }
        _ => unreachable!(),
    }
    match run_to(false, None, "bootstrap").1 {
        Action::Bootstrap { peers } => {
            assert_eq!(peers, vec!["/ip4/10.0.0.1/udp/1", "/ip4/10.0.0.2/udp/2"])
        }
        _ => unreachable!(),
    }
    match run_to(false, None, "params").1 {
        Action::LoadPublicParams { max_degree } => assert_eq!(max_degree, 1024),
        _ => unreachable!(),
    }
}

#[test]
fn the_last_node_is_tried_and_the_new_one_noted() {
    match run_to(false, None, "connect").1 {
        Action::Connect { full_nodes, last_node, network_version } => {
            assert_eq!(network_version, "1.6/data-avail");
            assert_eq!(full_nodes, vec!["ws://a:9944", "ws://b:9944"]);
            assert_eq!(last_node.as_deref(), Some("ws://b:9944"));
        }
        _ => unreachable!(),
    }
    let (mut startup, _, _) = run_to(false, None, "read node");
    match startup.next(Reply::LastNode(None)) {
        Some(Action::Connect { last_node, .. }) => assert_eq!(last_node, None),
        _ => unreachable!(),
    }
    let host = "ws://c:9944".to_string();
    match startup.next(Reply::Connected { host, genesis_hash: genesis(3) }) {
        Some(Action::StoreLastNode(host)) => assert_eq!(host, "ws://c:9944"),
        _ => unreachable!(),
    }
    assert!(matches!(startup.next(Reply::Done), Some(Action::ReadGenesisHash)));
}

#[test]
fn the_node_of_one_start_is_handed_to_the_next() {
    let noted = match run_to(false, None, "store node").1 {
        Action::StoreLastNode(host) => host,
        _ => unreachable!(),
    };
    let (mut later, _, _) = run_to(true, Some(genesis(1)), "read node");
    match later.next(Reply::LastNode(Some(noted.clone()))) {
        Some(Action::Connect { last_node, .. }) => assert_eq!(last_node, Some(noted)),
        _ => unreachable!(),
    }
}

#[test]
fn a_start_that_cannot_join_the_network_contacts_and_writes_nothing() {
    for stop in ["listen", "bootstrap"] {
        let (mut startup, _, names) = run_to(false, None, stop);
        assert!(matches!(startup.next(Reply::Failed), Some(Action::Fail(_))));
        for later in ["connect", "store node", "store genesis", "launch"] {
            assert!(!names.contains(&later));
        }
    }
}

#[test]
fn the_launch_knows_the_newest_block() {
    match run_to(false, None, "launch").1 {
        Action::Launch(plan) => {
            assert_eq!(plan.latest, 42);
            assert_eq!(plan.sync_end_block, 41);
            assert_eq!(plan.steps.last(), Some(&Launch::LightClient { awaited: true }));
        }
        _ => unreachable!(),
    }
}

#[test]
fn every_failure_has_its_error() {
    let expected = [
        ("database", StartError::Database, Some("Cannot initialize database at run")),
        ("keypair", StartError::Keypair, None),
        (
            "telemetry",
            StartError::Telemetry,
            Some("Unable to initialize OpenTelemetry service"),
        ),
        ("network", StartError::Network, Some("Failed to init Network Service")),
        ("listen", StartError::Listening, Some("Listening on UDP not to fail.")),
        ("bootstrap", StartError::Bootstrap, None),
        ("read node", StartError::LastNodeRead, None),
        ("connect", StartError::Connection, None),
        ("store node", StartError::LastNodeStore, None),
        ("read genesis", StartError::GenesisRead, None),
        ("store genesis", StartError::GenesisStore, None),
        ("head", StartError::Head, Some("Failed to get chain header")),
    ];
    for (stop, error, context) in expected {
        let (mut startup, _, _) = run_to(true, None, stop);
        match startup.next(Reply::Failed) {
            Some(Action::Fail(found)) => {
                assert_eq!(found, error);
                assert_eq!(found.context(), context);
            }
            _ => panic!("{} did not fail", stop),
        }
        assert!(startup.next(Reply::Done).is_none());
    }
}

#[test]
fn some_actions_cannot_fail() {
    for stop in ["subscriber", "network task", "params", "launch"] {
        let (mut startup, action, _) = run_to(true, None, stop);
        assert!(startup.next(Reply::Failed).is_none());
        let reply = good_reply(&action, None);
        assert!(startup.next(reply).is_some());
    }
}

#[test]
fn a_reply_to_another_action_changes_nothing() {
    let (mut startup, _, _) = run_to(false, None, "connect");
    assert!(startup.next(Reply::Done).is_none());
    assert!(startup.next(Reply::Head(1)).is_none());
    assert!(startup.next(Reply::LastNode(None)).is_none());
    assert!(startup.next(Reply::StoredGenesis(None)).is_none());
    let host = "ws://a:9944".to_string();
    let reply = Reply::Connected { host, genesis_hash: genesis(1) };
    assert!(matches!(startup.next(reply), Some(Action::StoreLastNode(_))));
}

#[test]
fn a_finished_start_takes_no_reply() {
    let (mut startup, _, _) = run_to(false, None, "finish");
    assert!(startup.next(Reply::Done).is_none());
    assert!(startup.next(Reply::Failed).is_none());
}
