use begin_wallet::commands::balance::resolve_address;
use begin_wallet::commands::{import, new_wallet};
use begin_wallet::cardano::validate_cardano_address;
use begin_wallet::errors::WalletError;
use begin_wallet::wallet::WalletStore;

const PHRASE_24: &str = "abandon abandon abandon abandon abandon abandon abandon abandon abandon abandon abandon abandon abandon abandon abandon abandon abandon abandon abandon abandon abandon abandon abandon art";

#[test]
fn test_import_derives_and_stores_address() {
    let mut store = WalletStore::default();
    let address = import::execute("Cardano", PHRASE_24, &mut store).unwrap();
    assert!(validate_cardano_address(&address));
    // Stored under the folded key, found under any spelling.
    assert_eq!(store.get_address("CARDANO"), Some(address.clone()));
    assert_eq!(store.get_address("cardano"), Some(address));
}

#[test]
fn test_import_rejects_bad_phrase_and_leaves_store_alone() {
    let mut store = WalletStore::default();
    assert!(matches!(
        import::execute("cardano", "only three words", &mut store),
        Err(WalletError::InvalidWordCount { count: 3 })
    ));
    assert_eq!(store.get_address("cardano"), None);
}

#[test]
fn test_import_dispatches_on_chain() {
    let mut store = WalletStore::default();
    assert!(matches!(
        import::execute("bitcoin", PHRASE_24, &mut store),
        Err(WalletError::ChainUnavailable { .. })
    ));
    assert!(matches!(
        import::execute("dogecoin", PHRASE_24, &mut store),
        Err(WalletError::UnknownChain { .. })
    ));
    assert_eq!(store.get_address("bitcoin"), None);
}

#[test]
fn test_new_wallet_creates_valid_stored_wallet() {
    let mut store = WalletStore::default();
    let wallet = new_wallet::execute("ada", &mut store).unwrap();
    assert_eq!(wallet.phrase.split_whitespace().count(), 24);
    assert!(validate_cardano_address(&wallet.address));
    assert_eq!(store.get_address("cardano"), Some(wallet.address.clone()));
    // Importing the phrase again reproduces the same address.
    let mut other_store = WalletStore::default();
    let reimported = import::execute("cardano", &wallet.phrase, &mut other_store).unwrap();
    assert_eq!(reimported, wallet.address);
}

#[test]
fn test_new_wallet_dispatches_on_chain() {
    let mut store = WalletStore::default();
    assert!(matches!(
        new_wallet::execute("sol", &mut store),
        Err(WalletError::ChainUnavailable { .. })
    ));
    assert!(matches!(
        new_wallet::execute("ripple", &mut store),
        Err(WalletError::UnknownChain { .. })
    ));
}

#[test]
fn test_resolve_address() {
    let mut store = WalletStore::default();
    // Explicit address wins.
    let explicit = resolve_address(&store, "cardano", Some("addr1given".to_string()));
    assert_eq!(explicit.unwrap(), "addr1given");
    // Falls back to the stored address.
    store.set_address("cardano", "addr1stored");
    assert_eq!(resolve_address(&store, "Cardano", None).unwrap(), "addr1stored");
    // Fails, naming the chain, when nothing is stored.
    match resolve_address(&store, "solana", None) {
        Err(WalletError::NoStoredAddress { chain }) => assert_eq!(chain, "solana"),
        _ => panic!("expected NoStoredAddress"),
    }
}
