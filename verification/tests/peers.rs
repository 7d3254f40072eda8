use bitcoin::secp256k1::{PublicKey, Secp256k1, SecretKey};
use rgb_lightning_node::access::{
    channel_count_with, has_channel_funded_by, peer_has_live_channel, LiveChannelAccess,
    PeerChannel,
};
use rgb_lightning_node::daemon::{
    check_settings, load_or_generate_seed, parse_seed, seed_contents, tls_config, SeedError,
    SeedPlan, SEED_FILE_MODE,
};
use rgb_lightning_node::payments::NodeId;
use rgb_lightning_node::table::Id;

fn test_peer_pubkey(tag: u8) -> NodeId {
    let mut key_bytes = [0u8; 32];
    key_bytes[31] = tag.max(1);
    let secret_key = SecretKey::from_slice(&key_bytes).unwrap();
    let bytes = PublicKey::from_secret_key(&Secp256k1::new(), &secret_key).serialize();
    NodeId {
        parity: bytes[0],
        x: Id {
            hi: u128::from_be_bytes(bytes[1..17].try_into().unwrap()),
            lo: u128::from_be_bytes(bytes[17..33].try_into().unwrap()),
        },
    }
}

#[test]
fn live_channel_access_follows_peer_lookup() {
    let allowed_peer = test_peer_pubkey(1);
    let denied_peer = test_peer_pubkey(2);
    let access = LiveChannelAccess::new(vec![allowed_peer]);

    assert!(access.allows_peer(allowed_peer));
    assert!(!access.allows_peer(denied_peer));
}

#[test]
fn live_channel_access_loses_access_when_last_channel_is_removed() {
    let peer = test_peer_pubkey(3);
    let mut access = LiveChannelAccess::new(vec![peer]);

    assert!(access.allows_peer(peer));
    access.usable.clear();
    assert!(!access.allows_peer(peer));
}

#[test]
fn channels_are_counted_by_peer_and_found_by_funding() {
    let a = test_peer_pubkey(1);
    let b = test_peer_pubkey(2);
    let channel = |peer, txid: Option<&str>| PeerChannel {
        peer,
        funding_txid: txid.map(|t| t.to_string()),
    };
    let channels = vec![channel(a, None), channel(b, Some("t1")), channel(a, Some("t2"))];
    assert_eq!(channel_count_with(&channels, a), 2);
    assert_eq!(channel_count_with(&channels, b), 1);
    assert_eq!(channel_count_with(&channels, test_peer_pubkey(3)), 0);
    assert!(has_channel_funded_by(&channels, "t2"));
    assert!(!has_channel_funded_by(&channels, "t3"));
    assert!(peer_has_live_channel(&vec![a, b], b));
    assert!(!peer_has_live_channel(&vec![a], b));
}

#[test]
fn seeds_are_64_hexadecimal_digits() {
    let mut expected = [0u8; 32];
    expected[0] = 0x0f;
    expected[31] = 0xA1;
    let text = format!(" 0F{}a1\n", "00".repeat(30));
    assert_eq!(parse_seed(&text), Ok(expected));
    let written = format!("0f{}a1", "00".repeat(30));
    assert_eq!(seed_contents(&expected), written);
    assert_eq!(parse_seed(&written), Ok(expected));
    assert_eq!(parse_seed(&"0".repeat(63)), Err(SeedError::NotHex));
    assert_eq!(parse_seed("no hex"), Err(SeedError::NotHex));
    assert_eq!(parse_seed("abcd"), Err(SeedError::WrongLength));
    assert_eq!(parse_seed(""), Err(SeedError::WrongLength));
    assert_eq!(SeedError::NotHex.message(), "seed file must be hex");
    assert_eq!(
        SeedError::WrongLength.message(),
        "seed file must decode to exactly 32 bytes"
    );
}

#[test]
fn generated_seeds_are_used_from_then_on() {
    let created = load_or_generate_seed(None, [9; 32]);
    let contents = match created {
        SeedPlan::Create {
            seed,
            contents,
            mode,
        } => {
            assert_eq!(seed, [9; 32]);
            assert_eq!(contents, "09".repeat(32));
            assert_eq!(mode, SEED_FILE_MODE);
            assert_eq!(mode, 0o600);
            contents
        }
        other => panic!("unexpected {other:?}"),
    };
    assert!(matches!(
        load_or_generate_seed(Some(&contents), [1; 32]),
        SeedPlan::Use(seed) if seed == [9; 32]
    ));
    assert!(matches!(
        load_or_generate_seed(Some("abcd"), [1; 32]),
        SeedPlan::Refuse(SeedError::WrongLength)
    ));
    assert!(matches!(
        load_or_generate_seed(Some("no hex"), [1; 32]),
        SeedPlan::Refuse(SeedError::NotHex)
    ));
}

#[test]
fn permissive_policy_is_refused_on_mainnet() {
    for network in ["testnet", "testnet4", "signet", "regtest"] {
        assert_eq!(check_settings(network, true), Ok(()));
    }
    assert_eq!(check_settings("bitcoin", false), Ok(()));
    assert_eq!(
        check_settings("bitcoin", true),
        Err("--permissive is not allowed on mainnet".to_string())
    );
    assert_eq!(
        check_settings("liquid", false),
        Err("invalid --network: liquid".to_string())
    );
}

#[test]
fn tls_needs_a_certificate_and_a_key() {
    let tls = tls_config(Some("c"), Some("k"), Some("a")).unwrap();
    assert_eq!((tls.cert_path, tls.key_path), ("c", "k"));
    assert_eq!(tls.client_ca_path, Some("a"));
    assert!(tls_config(Some("c"), None, None).is_none());
    assert!(tls_config(None, Some("k"), None).is_none());
}
