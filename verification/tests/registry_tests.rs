use begin_wallet::chains::Chain;
use begin_wallet::errors::WalletError;
use begin_wallet::registry::{ChainConfig, get_chain};

fn config() -> ChainConfig {
    ChainConfig { network: "mainnet".to_string(), api_key: Some("key".to_string()) }
}

#[test]
fn test_get_chain_resolves_name_and_symbol_case_insensitively() {
    for name in ["cardano", "Cardano", "CARDANO", "ada", "ADA"] {
        let chain = get_chain(name, &config()).unwrap();
        assert_eq!(chain.name(), "Cardano");
        assert_eq!(chain.symbol(), "ADA");
    }
}

#[test]
fn test_get_chain_pending_chains_are_unavailable() {
    for name in ["bitcoin", "BTC", "solana", "Sol"] {
        match get_chain(name, &config()) {
            Err(WalletError::ChainUnavailable { name: n }) => assert_eq!(n, name),
            _ => panic!("expected ChainUnavailable for {}", name),
        }
    }
}

#[test]
fn test_get_chain_unknown_lists_supported_set() {
    match get_chain("dogecoin", &config()) {
        Err(WalletError::UnknownChain { name, supported }) => {
            assert_eq!(name, "dogecoin");
            assert_eq!(supported, vec!["cardano", "bitcoin", "solana"]);
        }
        _ => panic!("expected UnknownChain"),
    }
    assert!(matches!(
        get_chain("", &config()),
        Err(WalletError::UnknownChain { .. })
    ));
}

#[test]
fn test_get_chain_passes_configuration_through() {
    let cfg = ChainConfig { network: "preview".to_string(), api_key: Some("k".to_string()) };
    let chain = get_chain("cardano", &cfg).unwrap();
    let request = chain
        .balance_request(
            "addr_test1qrxck4umlhave9kpw2ldtpnzqvxcnz7e9x3s0fvvqsqh3swhztdmjvf37aw3j0w8p7v2wqf4nzwm5yfh7sqfgfgqsdqgsgfwz3k",
        )
        .unwrap();
    assert!(request.url.starts_with("https://cardano-preview.blockfrost.io/api/v0"));
    assert_eq!(request.project_id, "k");
}
