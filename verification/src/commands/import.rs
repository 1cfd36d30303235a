//! Wallet import: restore an address from a recovery phrase and record it.

use vstd::prelude::*;

use crate::cardano::{derive_address_from_mnemonic, spec_valid_cardano_address};
use crate::derivation::{Network, spec_cardano_path, spec_derive_address};
use crate::errors::WalletError;
use crate::mnemonic::{accepted_word_count, phrase_valid, seed_of};
use crate::registry::{ChainClass, classify_chain, names_cardano, names_pending_chain};
use crate::text::{lower_chars, spec_word_count};
use crate::wallet::WalletStore;
use vstd::string::StringExecFns;

verus! {

/// Imports a wallet for `chain` from `phrase`: validates the phrase, derives
/// the address, and stores it under the chain's identifier. On any failure
/// the store is left untouched.
pub fn execute(chain: &str, phrase: &str, store: &mut WalletStore) -> (r: Result<
    String,
    WalletError,
>)
    requires
        old(store).wf(),
    ensures
        final(store).wf(),
        r is Err ==> final(store)@ == old(store)@,
        names_cardano(lower_chars(chain@)) ==> ({
            &&& (r is Ok <==> (accepted_word_count(spec_word_count(phrase@)) && phrase_valid(
                phrase@,
            )))
            &&& (r matches Ok(a) ==> a@ == spec_derive_address(
                seed_of(phrase@, ""@),
                spec_cardano_path(),
                Network::Mainnet,
            ) && spec_valid_cardano_address(a@) && final(store)@ == old(store)@.insert(
                "cardano"@,
                a@,
            ))
            &&& (r matches Err(e) ==> (e matches WalletError::InvalidWordCount { .. }
                || e matches WalletError::InvalidWord { .. }
                || e matches WalletError::ChecksumMismatch))
        }),
        names_pending_chain(lower_chars(chain@)) ==> (r matches Err(e) && (e matches
        WalletError::ChainUnavailable { name: n } && n@ == chain@)),
        !names_cardano(lower_chars(chain@)) && !names_pending_chain(lower_chars(chain@)) ==> (
        r matches Err(e) && (e matches WalletError::UnknownChain { name: n, .. } && n@ == chain@)),
{
    match classify_chain(chain) {
        ChainClass::Cardano => {
            let address = match derive_address_from_mnemonic(phrase) {
                Ok(a) => a,
                Err(e) => {
                    return Err(e);
                },
            };
            proof {
                reveal_strlit("cardano");
                assert(lower_chars("cardano"@) =~= "cardano"@);
            }
            store.set_address("cardano", address.as_str());
            Ok(address)
        },
        ChainClass::Pending => Err(WalletError::ChainUnavailable { name: String::from_str(chain) }),
        ChainClass::Unknown => {
            let mut supported: Vec<String> = Vec::new();
            supported.push(String::from_str("cardano"));
            supported.push(String::from_str("bitcoin"));
            supported.push(String::from_str("solana"));
            Err(WalletError::UnknownChain { name: String::from_str(chain), supported })
        },
    }
}

} // verus!
