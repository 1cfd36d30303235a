//! Balance command decisions: which address a query targets.

use vstd::prelude::*;

use crate::errors::WalletError;
use crate::text::lower_chars;
use crate::wallet::WalletStore;
use vstd::string::StringExecFns;

verus! {

/// The address a balance query targets: an explicitly supplied one, else the
/// one stored for the chain, else a failure naming the chain.
pub fn resolve_address(store: &WalletStore, chain: &str, address: Option<String>) -> (r: Result<
    String,
    WalletError,
>)
    requires
        store.wf(),
    ensures
        address matches Some(a) ==> (r matches Ok(x) && x@ == a@),
        address is None && store@.contains_key(lower_chars(chain@)) ==> (r matches Ok(x) && x@
            == store@[lower_chars(chain@)]),
        address is None && !store@.contains_key(lower_chars(chain@)) ==> (r matches Err(e) && (
        e matches WalletError::NoStoredAddress { chain: c } && c@ == chain@)),
{
    match address {
        Some(a) => Ok(a),
        None => match store.get_address(chain) {
            Some(a) => Ok(a),
            None => Err(WalletError::NoStoredAddress { chain: String::from_str(chain) }),
        },
    }
}

} // verus!
