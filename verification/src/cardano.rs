//! Cardano chain adapter: syntactic address validation, the balance query
//! against a Blockfrost-style indexer, transfer stubbing, and address
//! derivation from a recovery phrase.

use vstd::prelude::*;

use crate::chains::{
    Balance, BalanceView, Chain, IndexerRequest, TokenBalance, TokenBalanceView, TransactionResult,
    TransactionStatus, token_views,
};
use crate::derivation::{
    Network, PathLevel, cardano_path, derive_address, derive_state, lemma_derive_state_len,
    spec_cardano_path, spec_derive_address,
};
use crate::errors::WalletError;
use crate::mnemonic::{Mnemonic, accepted_word_count, phrase_valid, seed_of};
use crate::text::{
    format_lovelace, has_prefix, lemma_spec_hex_len, parse_quantity, spec_format_lovelace,
    spec_hex, spec_parse_quantity, spec_word_count, starts_with, str_eq, string_from_chars,
};
use vstd::string::{StrSliceExecFns, StringExecFns};

verus! {

/// The indexer's base URL for the main network.
pub open spec fn mainnet_url() -> Seq<char> {
    "https://cardano-mainnet.blockfrost.io/api/v0"@
}

/// The indexer's base URL for the preview test network.
pub open spec fn preview_url() -> Seq<char> {
    "https://cardano-preview.blockfrost.io/api/v0"@
}

/// Syntactic validity of a Cardano address: the mainnet or testnet prefix and
/// a plausible length. A cheap pre-filter before any network call, not a
/// cryptographic check of the encoded keys.
pub open spec fn spec_valid_cardano_address(s: Seq<char>) -> bool {
    (has_prefix(s, "addr1"@) || has_prefix(s, "addr_test1"@)) && 50 <= s.len() <= 120
}

/// Checks an address against the chain's prefix and length rules.
pub fn validate_cardano_address(address: &str) -> (r: bool)
    ensures
        r == spec_valid_cardano_address(address@),
{
    let n: usize = address.unicode_len();
    (starts_with(address, "addr1") || starts_with(address, "addr_test1")) && 50 <= n && n <= 120
}

// ---------------------------------------------------------------------------
// Indexer response mapping
// ---------------------------------------------------------------------------
/// The unit/quantity pairs listed under `amount` in an indexer response body,
/// in order, when the body has that shape; nothing otherwise. A function of
/// the body alone.
pub uninterp spec fn indexer_amounts(body: Seq<char>) -> Option<Seq<(Seq<char>, Seq<char>)>>;

/// The views of a sequence of unit/quantity entries.
pub open spec fn entry_views(s: Seq<(String, String)>) -> Seq<(Seq<char>, Seq<char>)> {
    s.map_values(|p: (String, String)| (p.0@, p.1@))
}

/// Relies on serde_json: reads a response body of the shape
/// `{"amount":[{"unit":"...","quantity":"..."},...]}` into its unit/quantity
/// pairs, in order; a body without that shape yields nothing, and a missing
/// `amount` field stands for an empty listing.
#[verifier::external_body]
fn parse_amounts(body: &str) -> (r: Option<Vec<(String, String)>>)
    ensures
        r is Some <==> indexer_amounts(body@) is Some,
        r matches Some(v) ==> indexer_amounts(body@) == Some(entry_views(v@)),
{
    let value: serde_json::Value = serde_json::from_str(body).ok()?;
    let arr = match value.get("amount") {
        Some(a) => a.as_array()?,
        None => {
            return Some(Vec::new());
        },
    };
    let mut out: Vec<(String, String)> = Vec::new();
    for item in arr {
        let unit = item.get("unit")?.as_str()?.to_string();
        let quantity = item.get("quantity")?.as_str()?.to_string();
        out.push((unit, quantity));
    }
    Some(out)
}

/// A display symbol for a token unit: a long identifier is cut to its first
/// sixteen characters with a trailing ellipsis marker, purely for display.
pub open spec fn spec_shorten(unit: Seq<char>) -> Seq<char> {
    if unit.len() > 20 {
        unit.take(16) + "..."@
    } else {
        unit
    }
}

/// Shortens a token unit identifier for display.
pub fn shorten_asset_name(unit: &str) -> (r: String)
    ensures
        r@ == spec_shorten(unit@),
{
    let n: usize = unit.unicode_len();
    if n > 20 {
        let head = unit.substring_char(0, 16);
        proof {
            assert(head@ =~= unit@.take(16));
        }
        String::from_str(head).concat("...")
    } else {
        String::from_str(unit)
    }
}

/// The issuing-authority identifier embedded in a token unit: its first 56
/// hex characters, kept untruncated for programmatic use; absent when the
/// unit is too short to carry one.
pub open spec fn spec_policy_id(unit: Seq<char>) -> Option<Seq<char>> {
    if unit.len() >= 56 {
        Some(unit.take(56))
    } else {
        None
    }
}

/// The token balance one non-native entry maps to: shortened display symbol,
/// the base-unit quantity verbatim, and the policy identifier when present.
pub open spec fn spec_token(unit: Seq<char>, quantity: Seq<char>) -> TokenBalanceView {
    TokenBalanceView {
        symbol: spec_shorten(unit),
        amount: quantity,
        policy_id: spec_policy_id(unit),
    }
}

fn token_from_entry(unit: &str, quantity: &str) -> (t: TokenBalance)
    ensures
        t@ == spec_token(unit@, quantity@),
{
    let n: usize = unit.unicode_len();
    let policy_id = if n >= 56 {
        let head = unit.substring_char(0, 56);
        proof {
            assert(head@ =~= unit@.take(56));
        }
        Some(String::from_str(head))
    } else {
        None
    };
    TokenBalance {
        symbol: shorten_asset_name(unit),
        amount: String::from_str(quantity),
        policy_id,
    }
}

/// The native amount of a listing: the last `lovelace` entry's quantity,
/// rendered in ada, or `0` when no such entry exists.
pub open spec fn spec_native_amount(entries: Seq<(Seq<char>, Seq<char>)>) -> Seq<char>
    decreases entries.len(),
{
    if entries.len() == 0 {
        "0"@
    } else if entries.last().0 == "lovelace"@ {
        spec_format_lovelace(spec_parse_quantity(entries.last().1))
    } else {
        spec_native_amount(entries.drop_last())
    }
}

/// The token balances of a listing: every entry but the native one, in order.
pub open spec fn spec_token_list(entries: Seq<(Seq<char>, Seq<char>)>) -> Seq<TokenBalanceView>
    decreases entries.len(),
{
    if entries.len() == 0 {
        Seq::empty()
    } else if entries.last().0 == "lovelace"@ {
        spec_token_list(entries.drop_last())
    } else {
        spec_token_list(entries.drop_last()).push(spec_token(entries.last().0, entries.last().1))
    }
}

/// The chain-neutral balance an indexer listing maps to.
pub open spec fn spec_cardano_balance(entries: Seq<(Seq<char>, Seq<char>)>) -> BalanceView {
    BalanceView {
        symbol: "ADA"@,
        amount: spec_native_amount(entries),
        tokens: spec_token_list(entries),
    }
}

/// Maps an indexer amount listing into the neutral balance model: the native
/// entry is converted from base units to human units once, here; every other
/// entry becomes a token balance.
pub fn balance_from_amounts(entries: &Vec<(String, String)>) -> (r: Balance)
    ensures
        r@ == spec_cardano_balance(entry_views(entries@)),
{
    let ghost ev = entry_views(entries@);
    let mut amount: String = String::from_str("0");
    let mut tokens: Vec<TokenBalance> = Vec::new();
    let mut i: usize = 0;
    while i < entries.len()
        invariant
            i <= entries@.len(),
            ev == entry_views(entries@),
            ev.len() == entries@.len(),
            amount@ == spec_native_amount(ev.take(i as int)),
            token_views(tokens@) == spec_token_list(ev.take(i as int)),
        decreases entries@.len() - i,
    {
        let pair = &entries[i];
        proof {
            assert(ev[i as int] == (pair.0@, pair.1@));
            assert(ev.take(i + 1).drop_last() =~= ev.take(i as int));
            assert(ev.take(i + 1).last() == ev[i as int]);
        }
        if str_eq(pair.0.as_str(), "lovelace") {
            amount = string_from_chars(format_lovelace(parse_quantity(pair.1.as_str())));
        } else {
            let t = token_from_entry(pair.0.as_str(), pair.1.as_str());
            tokens.push(t);
            proof {
                assert(token_views(tokens@) =~= spec_token_list(ev.take(i + 1)));
            }
        }
        i = i + 1;
    }
    proof {
        assert(ev.take(entries@.len() as int) =~= ev);
    }
    Balance { symbol: String::from_str("ADA"), amount, tokens }
}

// ---------------------------------------------------------------------------
// The adapter
// ---------------------------------------------------------------------------
/// Cardano adapter: immutable configuration only. The transport that issues
/// the requests lives with the caller; the adapter builds requests and
/// interprets responses.
pub struct Cardano {
    api_url: String,
    api_key: Option<String>,
}

impl Cardano {
    /// The configured indexer base URL.
    pub closed spec fn spec_api_url(&self) -> Seq<char> {
        self.api_url@
    }

    /// The configured credential, when one is present.
    pub closed spec fn spec_api_key(&self) -> Option<Seq<char>> {
        match self.api_key {
            Some(k) => Some(k@),
            None => None,
        }
    }

    /// Builds an adapter for the given network selector and credential. The
    /// preview and testnet selectors pick the test-network indexer; anything
    /// else defaults to mainnet.
    pub fn new(network: &str, api_key: Option<String>) -> (r: Cardano)
        ensures
            (network@ == "preview"@ || network@ == "testnet"@) ==> r.spec_api_url()
                == preview_url(),
            !(network@ == "preview"@ || network@ == "testnet"@) ==> r.spec_api_url()
                == mainnet_url(),
            r.spec_api_key() == (match api_key {
                Some(k) => Some(k@),
                None => None::<Seq<char>>,
            }),
    {
        let api_url = if str_eq(network, "preview") || str_eq(network, "testnet") {
            String::from_str("https://cardano-preview.blockfrost.io/api/v0")
        } else {
            String::from_str("https://cardano-mainnet.blockfrost.io/api/v0")
        };
        Cardano { api_url, api_key }
    }
}

impl Chain for Cardano {
    open spec fn spec_name(&self) -> Seq<char> {
        "Cardano"@
    }

    open spec fn spec_symbol(&self) -> Seq<char> {
        "ADA"@
    }

    open spec fn spec_valid_address(&self, addr: Seq<char>) -> bool {
        spec_valid_cardano_address(addr)
    }

    open spec fn balance_request_post(
        &self,
        addr: Seq<char>,
        r: Result<IndexerRequest, WalletError>,
    ) -> bool {
        match r {
            Ok(req) => spec_valid_cardano_address(addr) && (self.spec_api_key() matches Some(k)
                && req.project_id@ == k && req.url@ == self.spec_api_url() + "/addresses/"@
                    + addr),
            Err(e) => if !spec_valid_cardano_address(addr) {
                e matches WalletError::InvalidAddress
            } else {
                self.spec_api_key() is None && e matches WalletError::MissingCredential
            },
        }
    }

    open spec fn balance_response_post(
        &self,
        status: u16,
        body: Seq<char>,
        r: Result<Balance, WalletError>,
    ) -> bool {
        if !(200 <= status < 300) {
            r matches Err(e) && e matches WalletError::Indexer { status: s, body: b } && s == status
                && b@ == body
        } else {
            match indexer_amounts(body) {
                Some(entries) => r matches Ok(bal) && bal@ == spec_cardano_balance(entries),
                None => r matches Err(e) && e matches WalletError::MalformedResponse,
            }
        }
    }

    open spec fn send_post(
        &self,
        to: Seq<char>,
        amount: Seq<char>,
        r: Result<TransactionResult, WalletError>,
    ) -> bool {
        r matches Ok(t) && t.tx_hash@ == "not_implemented"@ && (t.status matches
        TransactionStatus::Failed(reason) && reason@ == "Send not yet implemented"@)
    }

    fn name(&self) -> (r: String) {
        String::from_str("Cardano")
    }

    fn symbol(&self) -> (r: String) {
        String::from_str("ADA")
    }

    fn validate_address(&self, address: &str) -> (r: bool) {
        validate_cardano_address(address)
    }

    /// Rejects an invalid address, then a missing credential, before any
    /// request value exists; otherwise builds the URL and credential header
    /// for the indexer's address endpoint.
    fn balance_request(&self, address: &str) -> (r: Result<IndexerRequest, WalletError>) {
        if !validate_cardano_address(address) {
            return Err(WalletError::InvalidAddress);
        }
        match &self.api_key {
            None => Err(WalletError::MissingCredential),
            Some(key) => {
                let mut url = String::from_str(self.api_url.as_str());
                url.append("/addresses/");
                url.append(address);
                Ok(IndexerRequest { url, project_id: String::from_str(key.as_str()) })
            },
        }
    }

    /// A response outside the success range is preserved verbatim as an
    /// indexer error; a success body is mapped into the neutral balance.
    fn balance_response(&self, status: u16, body: &str) -> (r: Result<Balance, WalletError>) {
        if !(200 <= status && status < 300) {
            return Err(WalletError::Indexer { status, body: String::from_str(body) });
        }
        match parse_amounts(body) {
            Some(entries) => Ok(balance_from_amounts(&entries)),
            None => Err(WalletError::MalformedResponse),
        }
    }

    /// The transfer pipeline is not finished: reports a terminal `Failed`
    /// status with a clear reason instead of pretending success.
    fn send(&self, to: &str, amount: &str, private_key: &[u8]) -> (r: Result<
        TransactionResult,
        WalletError,
    >) {
        Ok(
            TransactionResult {
                tx_hash: String::from_str("not_implemented"),
                status: TransactionStatus::Failed(String::from_str("Send not yet implemented")),
            },
        )
    }
}

// ---------------------------------------------------------------------------
// Address derivation for this chain
// ---------------------------------------------------------------------------
/// Derives the chain's first external address from a recovery phrase, with an
/// empty passphrase, along the chain's fixed path, tagged for mainnet.
pub fn derive_address_from_mnemonic(mnemonic: &str) -> (r: Result<String, WalletError>)
    ensures
        r is Ok <==> (accepted_word_count(spec_word_count(mnemonic@)) && phrase_valid(mnemonic@)),
        r matches Ok(a) ==> a@ == spec_derive_address(
            seed_of(mnemonic@, ""@),
            spec_cardano_path(),
            Network::Mainnet,
        ) && spec_valid_cardano_address(a@),
        r matches Err(e) ==> (e matches WalletError::InvalidWordCount { .. }
            || e matches WalletError::InvalidWord { .. }
            || e matches WalletError::ChecksumMismatch),
{
    let parsed = match Mnemonic::validate_and_parse(mnemonic) {
        Ok(m) => m,
        Err(e) => {
            return Err(e);
        },
    };
    let seed = parsed.to_seed("");
    let path = cardano_path();
    // The seed is 64 bytes and the path has five levels, so derivation cannot
    // fail here; the error arm is provably dead.
    match derive_address(seed.as_slice(), &path, Network::Mainnet) {
        Ok(address) => {
            proof {
                lemma_derived_address_is_valid(seed@, path@, Network::Mainnet);
            }
            Ok(address)
        },
        Err(e) => Err(e),
    }
}

/// Every derived address passes the chain's own syntactic validation, and
/// carries the prefix of the network it was derived for: an address is never
/// handed out without being valid for its chain.
pub proof fn lemma_derived_address_is_valid(seed: Seq<u8>, path: Seq<PathLevel>, network: Network)
    ensures
        spec_valid_cardano_address(spec_derive_address(seed, path, network)),
        network == Network::Mainnet ==> has_prefix(
            spec_derive_address(seed, path, network),
            "addr1"@,
        ),
        network == Network::Testnet ==> has_prefix(
            spec_derive_address(seed, path, network),
            "addr_test1"@,
        ),
{
    lemma_derive_state_len(seed, path, path.len() as int);
    let state = derive_state(seed, path, path.len() as int);
    assert(state.len() == 64);
    let payload = spec_hex(state.take(50));
    lemma_spec_hex_len(state.take(50));
    assert(payload.len() == 100);
    let addr = spec_derive_address(seed, path, network);
    reveal_strlit("addr1qx");
    reveal_strlit("addr_test1qx");
    reveal_strlit("addr1");
    reveal_strlit("addr_test1");
    match network {
        Network::Mainnet => {
            assert(addr.len() == 107);
            assert(addr.subrange(0, 5) =~= "addr1"@);
        },
        Network::Testnet => {
            assert(addr.len() == 112);
            assert(addr.subrange(0, 10) =~= "addr_test1"@);
        },
    }
}

} // verus!
