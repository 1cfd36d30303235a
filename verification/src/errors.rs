//! The wallet's error taxonomy: validation failures a caller can correct,
//! configuration failures with remediation, indexer failures preserving the
//! upstream status and body, and derivation failures that are always fatal.

use vstd::prelude::*;

verus! {

#[derive(Debug, Clone)]
pub enum WalletError {
    /// The recovery phrase does not have 12, 15 or 24 words.
    InvalidWordCount { count: usize },
    /// The recovery phrase holds a word outside the wordlist; `index` is the
    /// position of the first such word.
    InvalidWord { index: usize },
    /// The recovery phrase's embedded checksum does not match its entropy.
    ChecksumMismatch,
    /// The address fails the chain's syntactic check.
    InvalidAddress,
    /// No indexer API key is configured; balance queries cannot be made.
    MissingCredential,
    /// The indexer answered outside the success range; status and body are
    /// preserved verbatim for diagnosis.
    Indexer { status: u16, body: String },
    /// The indexer's response body could not be read as a balance listing.
    MalformedResponse,
    /// Key derivation could not process the given seed or path.
    Derivation,
    /// The operating system's randomness source failed.
    EntropyUnavailable,
    /// The chain is known but its support is not finished yet.
    ChainUnavailable { name: String },
    /// The chain identifier matches no supported chain; `supported` lists the
    /// identifiers that would have been accepted.
    UnknownChain { name: String, supported: Vec<String> },
    /// No address is stored for the chain and none was supplied.
    NoStoredAddress { chain: String },
}

} // verus!
