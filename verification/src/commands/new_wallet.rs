//! New-wallet creation: draw fresh entropy, encode it as a recovery phrase,
//! derive the first address, and record the address — never the phrase.

use vstd::prelude::*;

use crate::cardano::{derive_address_from_mnemonic, spec_valid_cardano_address};
use crate::derivation::{Network, spec_cardano_path, spec_derive_address};
use crate::errors::WalletError;
use crate::mnemonic::{Mnemonic, phrase_valid, seed_of};
use crate::registry::{ChainClass, classify_chain, names_cardano, names_pending_chain};
use crate::text::{lower_chars, spec_word_count};
use crate::wallet::WalletStore;
use vstd::string::StringExecFns;

verus! {

/// A freshly created wallet: the phrase the user must write down, and the
/// address derived from it. Only the address is persisted.
pub struct NewWallet {
    pub phrase: String,
    pub address: String,
}

/// Creates a new wallet for `chain`: a valid 24-word phrase and its derived
/// address, with the address stored under the chain's identifier. Fails only
/// when the chain is not the supported one or the randomness source fails;
/// on any failure the store is left untouched.
pub fn execute(chain: &str, store: &mut WalletStore) -> (r: Result<NewWallet, WalletError>)
    requires
        old(store).wf(),
    ensures
        final(store).wf(),
        r is Err ==> final(store)@ == old(store)@,
        names_cardano(lower_chars(chain@)) ==> ({
            &&& (r matches Ok(w) ==> phrase_valid(w.phrase@) && spec_word_count(w.phrase@) == 24
                && w.address@ == spec_derive_address(
                seed_of(w.phrase@, ""@),
                spec_cardano_path(),
                Network::Mainnet,
            ) && spec_valid_cardano_address(w.address@) && final(store)@ == old(store)@.insert(
                "cardano"@,
                w.address@,
            ))
            &&& (r matches Err(e) ==> e matches WalletError::EntropyUnavailable)
        }),
        names_pending_chain(lower_chars(chain@)) ==> (r matches Err(e) && (e matches
        WalletError::ChainUnavailable { name: n } && n@ == chain@)),
        !names_cardano(lower_chars(chain@)) && !names_pending_chain(lower_chars(chain@)) ==> (
        r matches Err(e) && (e matches WalletError::UnknownChain { name: n, .. } && n@ == chain@)),
{
    match classify_chain(chain) {
        ChainClass::Cardano => {
            let mnemonic = match Mnemonic::generate() {
                Ok(m) => m,
                Err(e) => {
                    return Err(e);
                },
            };
            let phrase = mnemonic.phrase();
            let address = match derive_address_from_mnemonic(phrase.as_str()) {
                Ok(a) => a,
                Err(e) => {
                    return Err(e);
                },
            };
            proof {
                reveal_strlit("cardano");
                assert(lower_chars("cardano"@) =~= "cardano"@);
            }
            store.set_address("cardano", address.as_str());
            Ok(NewWallet { phrase, address })
        },
        ChainClass::Pending => Err(WalletError::ChainUnavailable { name: String::from_str(chain) }),
        ChainClass::Unknown => {
            let mut supported: Vec<String> = Vec::new();
            supported.push(String::from_str("cardano"));
            supported.push(String::from_str("bitcoin"));
            supported.push(String::from_str("solana"));
            Err(WalletError::UnknownChain { name: String::from_str(chain), supported })
        },
    }
}

} // verus!
