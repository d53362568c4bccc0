use gravity_consensus::command::{compute_locked_until, parse_private_key, KeyParseError};
use gravity_consensus::config::{
    classify_probe_host, default_min_alert_interval, is_link_local, is_loopback, is_rfc1918,
    probe_host, IpAddress, ProbeUrlError,
};
use gravity_consensus::hexutil::{hex_decode_bytes, HexDecodeError};
use gravity_consensus::status::{
    join_completed, join_should_join, leave_action, leave_completed, status_from_u8, LeaveAction,
    ValidatorStatus,
};
use gravity_consensus::types::{Author, ValidatorConsensusInfo};

#[test]
fn status_bytes_decode_exactly() {
    assert_eq!(status_from_u8(0), ValidatorStatus::Inactive);
    assert_eq!(status_from_u8(1), ValidatorStatus::PendingActive);
    assert_eq!(status_from_u8(2), ValidatorStatus::Active);
    assert_eq!(status_from_u8(3), ValidatorStatus::PendingInactive);
    assert_eq!(status_from_u8(4), ValidatorStatus::Invalid);
    assert_eq!(status_from_u8(255), ValidatorStatus::Invalid);
}

#[test]
fn status_labels_match_the_wire_names() {
    assert_eq!(ValidatorStatus::Inactive.label(), "INACTIVE");
    assert_eq!(ValidatorStatus::PendingActive.label(), "PENDING_ACTIVE");
    assert_eq!(ValidatorStatus::Active.label(), "ACTIVE");
    assert_eq!(ValidatorStatus::PendingInactive.label(), "PENDING_INACTIVE");
    assert_eq!(ValidatorStatus::Invalid.label(), "UNKNOWN");
}

#[test]
fn leave_flow_decisions() {
    assert_eq!(leave_action(&ValidatorStatus::Active), LeaveAction::Proceed);
    assert_eq!(leave_action(&ValidatorStatus::PendingActive), LeaveAction::Proceed);
    assert_eq!(
        leave_action(&ValidatorStatus::PendingInactive),
        LeaveAction::AlreadyPendingInactive
    );
    assert_eq!(leave_action(&ValidatorStatus::Inactive), LeaveAction::AlreadyInactive);
    assert_eq!(leave_action(&ValidatorStatus::Invalid), LeaveAction::Refused);

    assert!(leave_completed(&ValidatorStatus::PendingInactive));
    assert!(leave_completed(&ValidatorStatus::Inactive));
    assert!(!leave_completed(&ValidatorStatus::Active));
}

#[test]
fn join_flow_decisions() {
    assert!(join_should_join(&ValidatorStatus::Inactive));
    assert!(!join_should_join(&ValidatorStatus::Active));
    assert!(join_completed(&ValidatorStatus::PendingActive));
    assert!(join_completed(&ValidatorStatus::Active));
    assert!(!join_completed(&ValidatorStatus::Inactive));
    assert!(!join_completed(&ValidatorStatus::Invalid));
}

#[test]
fn hex_decoding_is_exact() {
    assert_eq!(hex_decode_bytes(&b"00ff10".to_vec()), Ok(vec![0x00, 0xff, 0x10]));
    assert_eq!(hex_decode_bytes(&b"DEadBEef".to_vec()), Ok(vec![0xde, 0xad, 0xbe, 0xef]));
    assert_eq!(hex_decode_bytes(&b"abc".to_vec()), Err(HexDecodeError::OddLength));
    assert_eq!(hex_decode_bytes(&b"zz".to_vec()), Err(HexDecodeError::InvalidCharacter));
    assert_eq!(hex_decode_bytes(&Vec::new()), Ok(Vec::new()));
}

#[test]
fn private_keys_parse_with_and_without_prefix() {
    let hex64: Vec<u8> = b"0101010101010101010101010101010101010101010101010101010101010101"
        .to_vec();
    let parsed = parse_private_key(&hex64).unwrap();
    assert_eq!(parsed, vec![1u8; 32]);

    let mut prefixed = b"0x".to_vec();
    prefixed.extend_from_slice(&hex64);
    assert_eq!(parse_private_key(&prefixed).unwrap(), vec![1u8; 32]);

    assert_eq!(parse_private_key(&b"0xzz".to_vec()), Err(KeyParseError::InvalidHex));
    assert_eq!(parse_private_key(&b"abc".to_vec()), Err(KeyParseError::InvalidHex));
    assert_eq!(parse_private_key(&b"abcd".to_vec()), Err(KeyParseError::WrongLength));
}

#[test]
fn lockup_expiry_is_scaled_to_microseconds() {
    assert_eq!(compute_locked_until(1_000, 2_592_000), 2_593_000_000_000);
    assert_eq!(compute_locked_until(0, 0), 0);
}

#[test]
fn default_alert_interval_is_five_minutes() {
    assert_eq!(default_min_alert_interval(), 5);
}

#[test]
fn address_classification() {
    assert!(is_loopback(IpAddress::V4(127, 0, 0, 1)));
    assert!(is_loopback(IpAddress::V4(127, 255, 0, 9)));
    assert!(!is_loopback(IpAddress::V4(128, 0, 0, 1)));
    assert!(is_loopback(IpAddress::V6(0, 0, 0, 0, 0, 0, 0, 1)));
    assert!(!is_loopback(IpAddress::V6(0, 0, 0, 0, 0, 0, 0, 2)));

    assert!(is_link_local(IpAddress::V4(169, 254, 1, 1)));
    assert!(!is_link_local(IpAddress::V4(169, 253, 1, 1)));
    assert!(is_link_local(IpAddress::V6(0xfe80, 0, 0, 0, 0, 0, 0, 1)));
    assert!(is_link_local(IpAddress::V6(0xfebf, 0, 0, 0, 0, 0, 0, 1)));
    assert!(!is_link_local(IpAddress::V6(0xfec0, 0, 0, 0, 0, 0, 0, 1)));

    assert!(is_rfc1918(IpAddress::V4(10, 1, 2, 3)));
    assert!(is_rfc1918(IpAddress::V4(172, 16, 0, 1)));
    assert!(is_rfc1918(IpAddress::V4(172, 31, 255, 1)));
    assert!(!is_rfc1918(IpAddress::V4(172, 32, 0, 1)));
    assert!(is_rfc1918(IpAddress::V4(192, 168, 4, 4)));
    assert!(!is_rfc1918(IpAddress::V4(8, 8, 8, 8)));
    assert!(!is_rfc1918(IpAddress::V6(0xfd00, 0, 0, 0, 0, 0, 0, 1)));
}

#[test]
fn probe_hosts_are_extracted() {
    assert_eq!(probe_host(&b"https://example.com/health".to_vec()).unwrap(), b"example.com");
    assert_eq!(probe_host(&b"http://10.0.0.1:8080/x".to_vec()).unwrap(), b"10.0.0.1");
    assert_eq!(probe_host(&b"https://example.com".to_vec()).unwrap(), b"example.com");
    assert_eq!(
        probe_host(&b"no scheme here".to_vec()),
        Err(ProbeUrlError::MissingScheme)
    );
    assert_eq!(
        probe_host(&b"ftp://example.com/".to_vec()),
        Err(ProbeUrlError::DisallowedScheme)
    );
}

#[test]
fn forbidden_probe_hosts_are_rejected() {
    assert_eq!(classify_probe_host(None), Ok(()));
    assert_eq!(classify_probe_host(Some(IpAddress::V4(8, 8, 8, 8))), Ok(()));
    assert_eq!(
        classify_probe_host(Some(IpAddress::V4(127, 0, 0, 1))),
        Err(ProbeUrlError::LoopbackHost)
    );
    assert_eq!(
        classify_probe_host(Some(IpAddress::V4(169, 254, 169, 254))),
        Err(ProbeUrlError::LinkLocalHost)
    );
    assert_eq!(
        classify_probe_host(Some(IpAddress::V4(192, 168, 1, 1))),
        Err(ProbeUrlError::PrivateHost)
    );
    assert_eq!(
        classify_probe_host(Some(IpAddress::V6(0, 0, 0, 0, 0, 0, 0, 1))),
        Err(ProbeUrlError::LoopbackHost)
    );
}

#[test]
fn hex_text_accessors_print_lowercase_pairs() {
    let mut bytes = [0u8; 32];
    bytes[0] = 0xde;
    bytes[1] = 0xad;
    bytes[31] = 0x0f;
    let a = Author::new(bytes);
    let text = a.to_hex();
    assert_eq!(text.len(), 64);
    assert!(text.starts_with("dead"));
    assert!(text.ends_with("0f"));

    let info = ValidatorConsensusInfo {
        address: a,
        public_key: vec![0x01, 0xff],
        voting_power: 1,
        index: 0,
        network_addresses: Vec::new(),
        fullnode_addresses: Vec::new(),
    };
    assert_eq!(info.public_key_hex(), "01ff");
}

#[test]
fn bracketed_hosts_lose_port_and_brackets() {
    // the port is cut at the last colon, then brackets are stripped
    assert_eq!(probe_host(&b"https://[::1]:443/x".to_vec()).unwrap(), b"::1");
    // without a port, the cut at the last colon happens inside the
    // brackets, so the remainder is not an IP literal
    assert_eq!(probe_host(&b"https://[::1]".to_vec()).unwrap(), b":");
}
