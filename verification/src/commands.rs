//! The decision layer behind each wallet command: what each command computes
//! and how it changes the store, for every possible input. Reading input and
//! printing results stay with the caller.

pub mod balance;
pub mod import;
pub mod new_wallet;
