use begin_wallet::ui::{App, UiKey};

#[test]
fn test_app_initial_state() {
    let app = App::new();
    assert_eq!(app.selected(), 0);
    assert!(!app.should_quit());
    let chains = app.chains();
    assert_eq!(chains.len(), 3);
    assert_eq!(chains[0], "Cardano (ADA)");
    assert_eq!(chains[1], "Bitcoin (BTC) - Coming Soon");
    assert_eq!(chains[2], "Solana (SOL) - Coming Soon");
}

#[test]
fn test_navigation_wraps() {
    let mut app = App::new();
    app.next_chain();
    assert_eq!(app.selected(), 1);
    app.next_chain();
    assert_eq!(app.selected(), 2);
    app.next_chain();
    assert_eq!(app.selected(), 0);
    app.previous_chain();
    assert_eq!(app.selected(), 2);
    app.previous_chain();
    assert_eq!(app.selected(), 1);
}

#[test]
fn test_handle_key() {
    let mut app = App::new();
    app.handle_key(UiKey::Down);
    assert_eq!(app.selected(), 1);
    app.handle_key(UiKey::Up);
    assert_eq!(app.selected(), 0);
    app.handle_key(UiKey::Other);
    assert_eq!(app.selected(), 0);
    assert!(!app.should_quit());
    app.handle_key(UiKey::Quit);
    assert!(app.should_quit());
    assert_eq!(app.selected(), 0);
}
