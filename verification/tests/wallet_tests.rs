use begin_wallet::wallet::WalletStore;

#[test]
fn test_wallet_store_roundtrip() {
    let mut store = WalletStore::default();
    store.set_address("cardano", "addr1test123");
    store.set_address("bitcoin", "bc1test456");

    assert_eq!(store.get_address("cardano"), Some("addr1test123".to_string()));
    assert_eq!(store.get_address("CARDANO"), Some("addr1test123".to_string())); // case insensitive
    assert_eq!(store.get_address("bitcoin"), Some("bc1test456".to_string()));
    assert_eq!(store.get_address("solana"), None);
}

#[test]
fn test_set_address_replaces_previous() {
    let mut store = WalletStore::default();
    store.set_address("Cardano", "addr1first");
    store.set_address("CARDANO", "addr1second");
    assert_eq!(store.get_address("cardano"), Some("addr1second".to_string()));
    assert_eq!(store.list_addresses().len(), 1);
}

#[test]
fn test_remove_address() {
    let mut store = WalletStore::default();
    store.set_address("cardano", "addr1test123");
    assert_eq!(store.remove_address("Cardano"), Some("addr1test123".to_string()));
    assert_eq!(store.get_address("cardano"), None);
    assert_eq!(store.remove_address("cardano"), None);
}

#[test]
fn test_list_addresses() {
    let mut store = WalletStore::default();
    store.set_address("cardano", "a1");
    store.set_address("bitcoin", "b1");
    let listed = store.list_addresses();
    assert_eq!(listed.len(), 2);
    assert!(listed.iter().any(|(k, v)| k == "cardano" && v == "a1"));
    assert!(listed.iter().any(|(k, v)| k == "bitcoin" && v == "b1"));
}

#[test]
fn test_from_entries_folds_keys_and_keeps_last() {
    let entries = vec![
        ("Cardano".to_string(), "old".to_string()),
        ("CARDANO".to_string(), "new".to_string()),
        ("Bitcoin".to_string(), "b".to_string()),
    ];
    let store = WalletStore::from_entries(&entries);
    assert_eq!(store.get_address("cardano"), Some("new".to_string()));
    assert_eq!(store.get_address("bitcoin"), Some("b".to_string()));
    assert_eq!(store.list_addresses().len(), 2);
}

#[test]
fn test_listed_entries_rebuild_the_same_store() {
    let mut store = WalletStore::default();
    store.set_address("Cardano", "addr1abc");
    store.set_address("bitcoin", "bc1xyz");
    let rebuilt = WalletStore::from_entries(store.list_addresses());
    assert_eq!(rebuilt.get_address("cardano"), store.get_address("cardano"));
    assert_eq!(rebuilt.get_address("bitcoin"), store.get_address("bitcoin"));
    assert_eq!(rebuilt.list_addresses().len(), store.list_addresses().len());
}
