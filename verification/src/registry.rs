//! Chain registry: resolves a case-insensitive chain name or symbol to an
//! adapter built from injected configuration.

use vstd::prelude::*;

use crate::cardano::Cardano;
use crate::errors::WalletError;
use crate::text::{lower_chars, lowercase_string, str_eq};
use vstd::string::StringExecFns;

verus! {

/// The configuration an adapter is built from: a network selector and the
/// optional indexer credential, passed in explicitly rather than read from
/// ambient process state.
pub struct ChainConfig {
    pub network: String,
    pub api_key: Option<String>,
}

/// An identifier that resolves to the supported chain.
pub open spec fn names_cardano(l: Seq<char>) -> bool {
    l == "cardano"@ || l == "ada"@
}

/// An identifier of a chain that is known but not supported yet.
pub open spec fn names_pending_chain(l: Seq<char>) -> bool {
    l == "bitcoin"@ || l == "btc"@ || l == "solana"@ || l == "sol"@
}

/// How an identifier classifies against the registry.
#[derive(Clone, Copy, PartialEq, Eq, Structural)]
pub enum ChainClass {
    Cardano,
    Pending,
    Unknown,
}

/// Classifies a chain identifier, case-insensitively.
pub fn classify_chain(name: &str) -> (r: ChainClass)
    ensures
        r == ChainClass::Cardano <==> names_cardano(lower_chars(name@)),
        r == ChainClass::Pending <==> names_pending_chain(lower_chars(name@)),
        r == ChainClass::Unknown <==> (!names_cardano(lower_chars(name@))
            && !names_pending_chain(lower_chars(name@))),
{
    proof {
        reveal_strlit("cardano");
        reveal_strlit("ada");
        reveal_strlit("bitcoin");
        reveal_strlit("btc");
        reveal_strlit("solana");
        reveal_strlit("sol");
        assert("cardano"@.len() == 7 && "cardano"@[0] == 'c');
        assert("ada"@.len() == 3 && "ada"@[0] == 'a');
        assert("bitcoin"@.len() == 7 && "bitcoin"@[0] == 'b');
        assert("btc"@.len() == 3 && "btc"@[0] == 'b');
        assert("solana"@.len() == 6 && "solana"@[0] == 's');
        assert("sol"@.len() == 3 && "sol"@[0] == 's');
    }
    let l = lowercase_string(name);
    if str_eq(l.as_str(), "cardano") || str_eq(l.as_str(), "ada") {
        ChainClass::Cardano
    } else if str_eq(l.as_str(), "bitcoin") || str_eq(l.as_str(), "btc") || str_eq(
        l.as_str(),
        "solana",
    ) || str_eq(l.as_str(), "sol") {
        ChainClass::Pending
    } else {
        ChainClass::Unknown
    }
}

/// Resolves `name` (a chain name or symbol, any casing) to an adapter.
/// A known-but-unfinished chain is reported as unavailable; anything else
/// fails with the list of supported identifiers.
pub fn get_chain(name: &str, config: &ChainConfig) -> (r: Result<Cardano, WalletError>)
    ensures
        r is Ok <==> names_cardano(lower_chars(name@)),
        r matches Ok(c) ==> ({
            &&& (config.network@ == "preview"@ || config.network@ == "testnet"@)
                ==> c.spec_api_url() == crate::cardano::preview_url()
            &&& !(config.network@ == "preview"@ || config.network@ == "testnet"@)
                ==> c.spec_api_url() == crate::cardano::mainnet_url()
            &&& c.spec_api_key() == (match config.api_key {
                Some(k) => Some(k@),
                None => None::<Seq<char>>,
            })
        }),
        names_pending_chain(lower_chars(name@)) ==> (r matches Err(e) && (e matches
        WalletError::ChainUnavailable { name: n } && n@ == name@)),
        !names_cardano(lower_chars(name@)) && !names_pending_chain(lower_chars(name@)) ==> (
        r matches Err(e) && (e matches WalletError::UnknownChain { name: n, supported } && n@
            == name@ && supported@.len() == 3 && supported@[0]@ == "cardano"@ && supported@[1]@
            == "bitcoin"@ && supported@[2]@ == "solana"@)),
{
    match classify_chain(name) {
        ChainClass::Cardano => {
            let api_key = match &config.api_key {
                Some(k) => Some(String::from_str(k.as_str())),
                None => None,
            };
            Ok(Cardano::new(config.network.as_str(), api_key))
        },
        ChainClass::Pending => Err(WalletError::ChainUnavailable { name: String::from_str(name) }),
        ChainClass::Unknown => {
            let mut supported: Vec<String> = Vec::new();
            supported.push(String::from_str("cardano"));
            supported.push(String::from_str("bitcoin"));
            supported.push(String::from_str("solana"));
            Err(WalletError::UnknownChain { name: String::from_str(name), supported })
        },
    }
}

} // verus!
