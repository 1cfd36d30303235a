//! Recovery-phrase codec: validates a phrase against the fixed wordlist and
//! its embedded checksum, stretches it into binary seed material, and turns
//! fresh entropy into a new phrase.
//!
//! The wordlist and checksum scheme themselves, and the key stretching, come
//! from the `bip39` crate behind the trusted items below; the word-count rule
//! and everything that composes these calls is verified here.

use vstd::prelude::*;

use crate::errors::WalletError;
use crate::text::{count_words, spec_word_count};
use vstd::string::StringExecFns;

verus! {

/// A phrase the wordlist-and-checksum scheme accepts: every word is in the
/// wordlist, the word count is one the scheme allows, and the embedded
/// checksum matches the entropy the words encode.
pub uninterp spec fn phrase_valid(s: Seq<char>) -> bool;

/// The 64 bytes of seed material that key stretching produces from a phrase
/// and a passphrase. A function of its two arguments alone.
pub uninterp spec fn seed_of(phrase: Seq<char>, passphrase: Seq<char>) -> Seq<u8>;

/// The phrase that encodes a given block of entropy, words separated by
/// single spaces. A function of the entropy alone.
pub uninterp spec fn phrase_of_entropy(entropy: Seq<u8>) -> Seq<char>;

/// The word counts the codec accepts.
pub open spec fn accepted_word_count(n: nat) -> bool {
    n == 12 || n == 15 || n == 24
}

/// Relies on bip39's `Mnemonic::parse`: it succeeds exactly on phrases whose
/// words are all in the wordlist, whose word count the scheme allows, and
/// whose checksum matches; its error tells an unknown word (with its index)
/// apart from a checksum mismatch and a bad word count.
#[verifier::external_body]
fn check_phrase(phrase: &str) -> (r: Result<(), WalletError>)
    ensures
        r is Ok <==> phrase_valid(phrase@),
        r matches Err(e) ==> (e matches WalletError::InvalidWordCount { .. }
            || e matches WalletError::InvalidWord { .. }
            || e matches WalletError::ChecksumMismatch),
{
    match bip39::Mnemonic::parse(phrase) {
        Ok(_) => Ok(()),
        Err(bip39::Error::BadWordCount(count)) => Err(WalletError::InvalidWordCount { count }),
        Err(bip39::Error::UnknownWord(index)) => Err(WalletError::InvalidWord { index }),
        Err(_) => Err(WalletError::ChecksumMismatch),
    }
}

/// Relies on bip39's `Mnemonic::parse` and `Mnemonic::to_seed`: for a phrase
/// the scheme accepts, key stretching yields 64 bytes determined by the
/// phrase and the passphrase alone.
#[verifier::external_body]
fn phrase_to_seed(phrase: &str, passphrase: &str) -> (r: Vec<u8>)
    requires
        phrase_valid(phrase@),
    ensures
        r@ == seed_of(phrase@, passphrase@),
        r@.len() == 64,
{
    match bip39::Mnemonic::parse(phrase) {
        Ok(m) => m.to_seed(passphrase).to_vec(),
        Err(_) => Vec::new(),
    }
}

/// Relies on bip39's `Mnemonic::from_entropy_in` and its `Display`: 32 bytes
/// of entropy always encode as a phrase of 24 wordlist words joined by single
/// spaces, a phrase the scheme itself accepts.
#[verifier::external_body]
fn phrase_from_entropy(entropy: &Vec<u8>) -> (r: String)
    requires
        entropy@.len() == 32,
    ensures
        r@ == phrase_of_entropy(entropy@),
        phrase_valid(r@),
        spec_word_count(r@) == 24,
{
    match bip39::Mnemonic::from_entropy_in(bip39::Language::English, entropy) {
        Ok(m) => m.to_string(),
        Err(_) => String::new(),
    }
}

/// Relies on getrandom's `fill`: on success the buffer is filled with `n`
/// bytes from the operating system's randomness source. Nothing is promised
/// about the values.
#[verifier::external_body]
fn fill_random(n: usize) -> (r: Result<Vec<u8>, WalletError>)
    ensures
        r matches Ok(v) ==> v@.len() == n,
        r matches Err(e) ==> e matches WalletError::EntropyUnavailable,
{
    let mut buf = vec![0u8; n];
    match getrandom::fill(&mut buf) {
        Ok(()) => Ok(buf),
        Err(_) => Err(WalletError::EntropyUnavailable),
    }
}

/// A validated recovery phrase. Values of this type only exist for phrases
/// that the codec accepted in full.
pub struct Mnemonic {
    phrase: String,
}

impl View for Mnemonic {
    type V = Seq<char>;

    closed spec fn view(&self) -> Seq<char> {
        self.phrase@
    }
}

impl Mnemonic {
    #[verifier::type_invariant]
    closed spec fn wf(self) -> bool {
        phrase_valid(self.phrase@) && accepted_word_count(spec_word_count(self.phrase@))
    }

    /// Accepts a phrase exactly when it has 12, 15 or 24 words, every word is
    /// in the wordlist, and the embedded checksum matches. The word count is
    /// checked first, so a phrase of any other length fails with
    /// `InvalidWordCount` whatever its words.
    pub fn validate_and_parse(phrase: &str) -> (r: Result<Mnemonic, WalletError>)
        ensures
            r is Ok <==> (accepted_word_count(spec_word_count(phrase@)) && phrase_valid(phrase@)),
            r matches Ok(m) ==> m@ == phrase@,
            !accepted_word_count(spec_word_count(phrase@)) ==> r == Result::<
                Mnemonic,
                WalletError,
            >::Err(WalletError::InvalidWordCount { count: spec_word_count(phrase@) as usize }),
            r matches Err(e) ==> (e matches WalletError::InvalidWordCount { .. }
                || e matches WalletError::InvalidWord { .. }
                || e matches WalletError::ChecksumMismatch),
    {
        let count = count_words(phrase);
        if count != 12 && count != 15 && count != 24 {
            return Err(WalletError::InvalidWordCount { count });
        }
        match check_phrase(phrase) {
            Ok(()) => Ok(Mnemonic { phrase: String::from_str(phrase) }),
            Err(e) => Err(e),
        }
    }

    /// The number of words in the phrase: always 12, 15 or 24.
    pub fn word_count(&self) -> (r: usize)
        ensures
            r == spec_word_count(self@),
            accepted_word_count(r as nat),
    {
        proof {
            use_type_invariant(&*self);
        }
        count_words(self.phrase.as_str())
    }

    /// Stretches the phrase and a passphrase into 64 bytes of seed material.
    /// Deterministic: the same phrase and passphrase always give the same
    /// seed. The seed is returned to the caller and retained nowhere.
    pub fn to_seed(&self, passphrase: &str) -> (r: Vec<u8>)
        ensures
            r@ == seed_of(self@, passphrase@),
            r@.len() == 64,
    {
        proof {
            use_type_invariant(&*self);
        }
        phrase_to_seed(self.phrase.as_str(), passphrase)
    }

    /// Draws 32 bytes of fresh entropy and encodes them as a new 24-word
    /// phrase. Fails only when the randomness source does.
    pub fn generate() -> (r: Result<Mnemonic, WalletError>)
        ensures
            r matches Ok(m) ==> phrase_valid(m@) && spec_word_count(m@) == 24,
            r matches Err(e) ==> e matches WalletError::EntropyUnavailable,
    {
        let entropy = match fill_random(32) {
            Ok(e) => e,
            Err(e) => {
                return Err(e);
            },
        };
        let phrase = phrase_from_entropy(&entropy);
        Ok(Mnemonic { phrase })
    }

    /// The phrase itself, for display to the user who must write it down.
    pub fn phrase(&self) -> (r: String)
        ensures
            r@ == self@,
    {
        String::from_str(self.phrase.as_str())
    }
}

} // verus!
