//! Multi-chain wallet core: recovery-phrase validation and seed stretching,
//! deterministic address derivation, syntactic address validation, an
//! indexer-backed balance model, a chain registry, and an address-only wallet
//! store. Each part's behaviour is stated in its contract; the network, the
//! terminal and the disk stay with the caller.

pub mod text;
pub mod errors;
pub mod chains;
pub mod mnemonic;
pub mod derivation;
pub mod cardano;
pub mod wallet;
pub mod registry;
pub mod ui;
pub mod commands;
