use begin_wallet::cardano::{
    Cardano, derive_address_from_mnemonic, shorten_asset_name, validate_cardano_address,
};
use begin_wallet::chains::Chain;
use begin_wallet::derivation::{Network, PathLevel, cardano_path, derive_address, simple_hash};
use begin_wallet::errors::WalletError;

const PHRASE_12: &str = "abandon abandon abandon abandon abandon abandon abandon abandon abandon abandon abandon about";
const PHRASE_24: &str = "abandon abandon abandon abandon abandon abandon abandon abandon abandon abandon abandon abandon abandon abandon abandon abandon abandon abandon abandon abandon abandon abandon abandon art";

#[test]
fn test_validate_address() {
    let cardano = Cardano::new("mainnet", None);

    // Valid mainnet address
    assert!(cardano.validate_address(
        "addr1qxck4umlhave9kpw2ldtpnzqvxcnz7e9x3s0fvvqsqh3swhztdmjvf37aw3j0w8p7v2wqf4nzwm5yfh7sqfgfgqsdqgswdznxr"
    ));

    // Valid testnet address
    assert!(cardano.validate_address(
        "addr_test1qrxck4umlhave9kpw2ldtpnzqvxcnz7e9x3s0fvvqsqh3swhztdmjvf37aw3j0w8p7v2wqf4nzwm5yfh7sqfgfgqsdqgsgfwz3k"
    ));

    // Invalid
    assert!(!cardano.validate_address("invalid"));
    assert!(!cardano.validate_address("bc1qar0srrr7xfkvy5l643lydnw9re59gtzzwf5mdq"));
}

#[test]
fn test_validate_address_prefix_and_length_classes() {
    // "addr1" followed by 96 hex-like characters: 101 characters, valid.
    let mut a = String::from("addr1");
    for _ in 0..96 {
        a.push('f');
    }
    assert!(validate_cardano_address(&a));

    // A testnet address of suitable length is syntactically fine too.
    let mut t = String::from("addr_test1");
    for _ in 0..90 {
        t.push('7');
    }
    assert!(validate_cardano_address(&t));

    // Right prefix but too short.
    assert!(!validate_cardano_address("addr1short"));
    // Right prefix but too long.
    let mut long = String::from("addr1");
    for _ in 0..120 {
        long.push('q');
    }
    assert!(!validate_cardano_address(&long));
}

#[test]
fn test_balance_response_native_amount() {
    let cardano = Cardano::new("mainnet", None);
    let body = "{\"amount\":[{\"unit\":\"lovelace\",\"quantity\":\"1500000\"}]}";
    let balance = cardano.balance_response(200, body).unwrap();
    assert_eq!(balance.symbol, "ADA");
    assert_eq!(balance.amount, "1.500000");
    assert!(balance.tokens.is_empty());
}

#[test]
fn test_balance_response_token_truncation() {
    let cardano = Cardano::new("mainnet", None);
    // A 76-character unit: 56 hex characters of policy id plus an asset name.
    let unit = "00000000000000000000000000000000000000000000000000000000deadbeefdeadbeef0000";
    assert!(unit.len() > 70);
    let body = format!(
        "{{\"amount\":[{{\"unit\":\"lovelace\",\"quantity\":\"2000000\"}},{{\"unit\":\"{}\",\"quantity\":\"42\"}}]}}",
        unit
    );
    let balance = cardano.balance_response(200, &body).unwrap();
    assert_eq!(balance.amount, "2.000000");
    assert_eq!(balance.tokens.len(), 1);
    let token = &balance.tokens[0];
    assert_eq!(token.symbol, format!("{}...", &unit[..16]));
    assert_eq!(token.amount, "42");
    assert_eq!(token.policy_id.as_deref(), Some(&unit[..56]));
}

#[test]
fn test_balance_response_short_unit_kept_whole() {
    let cardano = Cardano::new("mainnet", None);
    let body = "{\"amount\":[{\"unit\":\"shorttoken\",\"quantity\":\"7\"}]}";
    let balance = cardano.balance_response(200, body).unwrap();
    // No lovelace entry: native amount defaults to zero.
    assert_eq!(balance.amount, "0");
    assert_eq!(balance.tokens[0].symbol, "shorttoken");
    assert_eq!(balance.tokens[0].policy_id, None);
}

#[test]
fn test_balance_response_malformed_quantity_reads_as_zero() {
    let cardano = Cardano::new("mainnet", None);
    let body = "{\"amount\":[{\"unit\":\"lovelace\",\"quantity\":\"not-a-number\"}]}";
    let balance = cardano.balance_response(200, body).unwrap();
    assert_eq!(balance.amount, "0.000000");
}

#[test]
fn test_balance_response_error_preserves_status_and_body() {
    let cardano = Cardano::new("mainnet", None);
    match cardano.balance_response(404, "no such address") {
        Err(WalletError::Indexer { status, body }) => {
            assert_eq!(status, 404);
            assert_eq!(body, "no such address");
        }
        other => panic!("expected an indexer error, got {:?}", other.is_ok()),
    }
}

#[test]
fn test_balance_response_malformed_body() {
    let cardano = Cardano::new("mainnet", None);
    assert!(matches!(
        cardano.balance_response(200, "][not json"),
        Err(WalletError::MalformedResponse)
    ));
}

#[test]
fn test_balance_request_requires_credential_before_any_request() {
    let valid = "addr1qxck4umlhave9kpw2ldtpnzqvxcnz7e9x3s0fvvqsqh3swhztdmjvf37aw3j0w8p7v2wqf4nzwm5yfh7sqfgfgqsdqgswdznxr";
    // No credential: fails before any request value exists.
    let without_key = Cardano::new("mainnet", None);
    assert!(matches!(
        without_key.balance_request(valid),
        Err(WalletError::MissingCredential)
    ));
    // Invalid address is rejected even earlier.
    assert!(matches!(
        without_key.balance_request("invalid"),
        Err(WalletError::InvalidAddress)
    ));
    // With a credential the request carries the URL and the key.
    let with_key = Cardano::new("mainnet", Some("k3y".to_string()));
    let request = with_key.balance_request(valid).unwrap();
    assert_eq!(
        request.url,
        format!("https://cardano-mainnet.blockfrost.io/api/v0/addresses/{}", valid)
    );
    assert_eq!(request.project_id, "k3y");
}

#[test]
fn test_network_selects_base_url() {
    let preview = Cardano::new("preview", Some("k".to_string()));
    let request = preview
        .balance_request(
            "addr_test1qrxck4umlhave9kpw2ldtpnzqvxcnz7e9x3s0fvvqsqh3swhztdmjvf37aw3j0w8p7v2wqf4nzwm5yfh7sqfgfgqsdqgsgfwz3k",
        )
        .unwrap();
    assert!(request.url.starts_with("https://cardano-preview.blockfrost.io/api/v0/addresses/"));
}

#[test]
fn test_send_reports_not_implemented() {
    let cardano = Cardano::new("mainnet", None);
    let result = cardano.send("addr1whatever", "1.0", &[0u8; 32]).unwrap();
    assert_eq!(result.tx_hash, "not_implemented");
    match result.status {
        begin_wallet::chains::TransactionStatus::Failed(reason) => {
            assert_eq!(reason, "Send not yet implemented");
        }
        _ => panic!("expected a terminal Failed status"),
    }
}

#[test]
fn test_name_and_symbol() {
    let cardano = Cardano::new("mainnet", None);
    assert_eq!(cardano.name(), "Cardano");
    assert_eq!(cardano.symbol(), "ADA");
}

#[test]
fn test_shorten_asset_name() {
    assert_eq!(shorten_asset_name("short"), "short");
    assert_eq!(
        shorten_asset_name("abcdefghijklmnopqrstu"),
        "abcdefghijklmnop..."
    );
}

#[test]
fn test_simple_hash_is_64_bytes_and_input_sensitive() {
    let a = simple_hash(&[1, 2, 3]);
    let b = simple_hash(&[1, 2, 4]);
    assert_eq!(a.len(), 64);
    assert_eq!(b.len(), 64);
    assert_ne!(a, b);
    assert_eq!(a, simple_hash(&[1, 2, 3]));
}

#[test]
fn test_derive_address_deterministic() {
    let first = derive_address_from_mnemonic(PHRASE_24).unwrap();
    let second = derive_address_from_mnemonic(PHRASE_24).unwrap();
    assert_eq!(first, second);
    let other = derive_address_from_mnemonic(PHRASE_12).unwrap();
    assert_ne!(first, other);
    // Every derived address passes the chain's own validation.
    assert!(validate_cardano_address(&first));
    assert!(validate_cardano_address(&other));
}

#[test]
fn test_derive_address_component_sensitivity() {
    let seed = vec![7u8; 64];
    let path = cardano_path();
    let base = derive_address(&seed, &path, Network::Mainnet).unwrap();
    // Same inputs, same output.
    assert_eq!(base, derive_address(&seed, &path, Network::Mainnet).unwrap());
    // A different seed changes the address.
    let other_seed = vec![8u8; 64];
    assert_ne!(base, derive_address(&other_seed, &path, Network::Mainnet).unwrap());
    // A different path index changes the address.
    let mut other_path = cardano_path();
    other_path[4] = PathLevel { index: 1, hardened: false };
    assert_ne!(base, derive_address(&seed, &other_path, Network::Mainnet).unwrap());
    // A different network changes the address and its prefix.
    let testnet = derive_address(&seed, &path, Network::Testnet).unwrap();
    assert_ne!(base, testnet);
    assert!(base.starts_with("addr1"));
    assert!(testnet.starts_with("addr_test1"));
    assert!(validate_cardano_address(&testnet));
}

#[test]
fn test_derive_address_rejects_bad_seed_and_path() {
    let path = cardano_path();
    assert!(matches!(
        derive_address(&[0u8; 16], &path, Network::Mainnet),
        Err(WalletError::Derivation)
    ));
    let short_path = vec![PathLevel { index: 0, hardened: false }];
    assert!(matches!(
        derive_address(&[0u8; 64], &short_path, Network::Mainnet),
        Err(WalletError::Derivation)
    ));
}
