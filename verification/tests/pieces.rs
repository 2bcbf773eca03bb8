use libp2p::multiaddr::Protocol;
use libp2p::Multiaddr;
use light_client_commons::address::listen_address;
use light_client_commons::database::{Access, ColumnFamily};
use light_client_commons::init_db;
use light_client_commons::params::{describe_params, public_params_digest, MAX_DEGREE};

const FAMILIES: [ColumnFamily; 11] = [
    ColumnFamily::ConfidenceFactor,
    ColumnFamily::BlockHeader,
    ColumnFamily::AppData,
    ColumnFamily::State,
    ColumnFamily::LatestBlock,
    ColumnFamily::ConfidenceAchievedBlocks,
    ColumnFamily::BlocksList,
    ColumnFamily::BlocksListLength,
    ColumnFamily::ConfidenceAchievedMessage,
    ColumnFamily::HeaderVerifiedMessage,
    ColumnFamily::DataVerifiedMessage,
];

#[test]
fn a_database_is_opened_for_writing() {
    let plan = init_db("/tmp/avail", false);
    assert_eq!(plan.path, "/tmp/avail");
    assert_eq!(plan.access, Access::ReadWrite);
    assert!(plan.create_if_missing);
    assert!(plan.create_missing_column_families);
    let families: Vec<ColumnFamily> = plan.families.iter().map(|f| f.family).collect();
    assert_eq!(families, FAMILIES);
    assert!(plan.families.iter().all(|f| f.max_write_buffer_number == 16));
}

#[test]
fn a_database_is_opened_for_reading() {
    let plan = init_db("avail_path", true);
    assert_eq!(plan.path, "avail_path");
    assert_eq!(plan.access, Access::ReadOnly { error_if_log_file_exist: false });
    assert_eq!(plan.families, init_db("avail_path", false).families);
}

#[test]
fn every_column_family_is_opened_once() {
    let plan = init_db("p", false);
    for family in FAMILIES {
        assert_eq!(plan.families.iter().filter(|f| f.family == family).count(), 1);
    }
}

#[test]
fn the_client_listens_on_every_interface() {
    assert_eq!(listen_address(37000).to_string(), "/ip4/0.0.0.0/udp/37000/quic-v1");
    assert_eq!(listen_address(0).to_string(), "/ip4/0.0.0.0/udp/0/quic-v1");
    let expected: Multiaddr = "/ip4/0.0.0.0/udp/65535/quic-v1".parse().unwrap();
    assert_eq!(listen_address(65535), expected);
    let address = listen_address(1);
    let last = address.iter().last();
    assert_eq!(last, Some(Protocol::QuicV1));
}

#[test]
fn the_digest_of_nothing() {
    let digest = public_params_digest(&[]);
    assert_eq!(digest.hash, "cae66941d9efbd404e4d88758ea67670");
    assert_eq!(digest.len, 0);
}

#[test]
fn the_digest_of_some_bytes() {
    let digest = public_params_digest(b"abc");
    assert_eq!(digest.hash, "cf4ab791c62b8d2b2109c90275287816");
    assert_eq!(digest.len, 6);
    assert_ne!(public_params_digest(b"abd").hash, digest.hash);
}

#[test]
fn a_hash_is_shown_in_lower_case_hexadecimal() {
    let hash = [
        0x00, 0x01, 0x0a, 0x10, 0x7f, 0x80, 0x9f, 0xa0, 0xab, 0xcd, 0xef, 0xf0, 0xff, 0x42, 0x99,
        0xee,
    ];
    let digest = describe_params(&hash, &[1, 2, 3, 4, 5]);
    assert_eq!(digest.hash, "00010a107f809fa0abcdeff0ff4299ee");
    assert_eq!(digest.len, 10);
}

#[test]
fn the_parameters_have_a_fixed_degree() {
    assert_eq!(MAX_DEGREE, 1024);
}
