//! Wallet store: a mapping from case-folded chain identifiers to one address
//! each. Addresses only — never key material. Persistence belongs to the
//! caller; this type owns the mapping semantics.

use vstd::prelude::*;

use crate::text::{lemma_lower_chars_idempotent, lower_chars, lowercase_string, str_eq};
use vstd::string::StringExecFns;

verus! {

/// Association lookup over the entry list; later entries shadow earlier ones.
pub open spec fn assoc_get(s: Seq<(String, String)>, k: Seq<char>) -> Option<Seq<char>>
    decreases s.len(),
{
    if s.len() == 0 {
        None
    } else if s.last().0@ == k {
        Some(s.last().1@)
    } else {
        assoc_get(s.drop_last(), k)
    }
}

/// No two entries carry the same key.
pub open spec fn distinct_keys(s: Seq<(String, String)>) -> bool {
    forall|i: int, j: int| 0 <= i < j < s.len() ==> s[i].0@ != s[j].0@
}

/// Every key is already case-folded.
pub open spec fn folded_keys(s: Seq<(String, String)>) -> bool {
    forall|i: int| 0 <= i < s.len() ==> lower_chars(#[trigger] s[i].0@) == s[i].0@
}

/// An entry with key `k` makes the lookup yield its address.
proof fn lemma_assoc_found(s: Seq<(String, String)>, i: int, k: Seq<char>)
    requires
        distinct_keys(s),
        0 <= i < s.len(),
        s[i].0@ == k,
    ensures
        assoc_get(s, k) == Some(s[i].1@),
    decreases s.len(),
{
    if i == s.len() - 1 {
    } else {
        assert(s.last().0@ != k);
        lemma_assoc_found(s.drop_last(), i, k);
    }
}

/// Without an entry for `k` the lookup yields nothing.
proof fn lemma_assoc_none(s: Seq<(String, String)>, k: Seq<char>)
    requires
        forall|i: int| 0 <= i < s.len() ==> (#[trigger] s[i].0@) != k,
    ensures
        assoc_get(s, k) is None,
    decreases s.len(),
{
    if s.len() > 0 {
        lemma_assoc_none(s.drop_last(), k);
    }
}

/// A successful lookup comes from some entry.
proof fn lemma_assoc_some_exists(s: Seq<(String, String)>, k: Seq<char>)
    requires
        assoc_get(s, k) is Some,
    ensures
        exists|i: int| 0 <= i < s.len() && (#[trigger] s[i].0@) == k,
    decreases s.len(),
{
    if s.len() > 0 && s.last().0@ != k {
        lemma_assoc_some_exists(s.drop_last(), k);
    }
}

/// Removing an entry with a different key leaves a lookup unchanged.
proof fn lemma_assoc_remove(s: Seq<(String, String)>, i: int, k: Seq<char>)
    requires
        0 <= i < s.len(),
        s[i].0@ != k,
    ensures
        assoc_get(s.remove(i), k) == assoc_get(s, k),
    decreases s.len(),
{
    if i == s.len() - 1 {
        assert(s.remove(i) =~= s.drop_last());
    } else {
        assert(s.remove(i).last() == s.last());
        if s.last().0@ != k {
            assert(s.remove(i).drop_last() =~= s.drop_last().remove(i));
            lemma_assoc_remove(s.drop_last(), i, k);
        }
    }
}

/// After removing the unique entry carrying `key`, no entry carries it, the
/// other entries keep their order, and the invariants survive.
proof fn lemma_removed_entry_facts(
    s0: Seq<(String, String)>,
    s1: Seq<(String, String)>,
    i: int,
    key: Seq<char>,
)
    requires
        distinct_keys(s0),
        folded_keys(s0),
        0 <= i < s0.len(),
        s0[i].0@ == key,
        s1 == s0.remove(i),
    ensures
        distinct_keys(s1),
        folded_keys(s1),
        forall|j: int| 0 <= j < s1.len() ==> (#[trigger] s1[j].0@) != key,
        forall|k2: Seq<char>| k2 != key ==> #[trigger] assoc_get(s1, k2) == assoc_get(s0, k2),
{
    assert forall|j: int| 0 <= j < s1.len() implies #[trigger] s1[j] == (if j < i {
        s0[j]
    } else {
        s0[j + 1]
    }) by {}
    assert forall|k2: Seq<char>| k2 != key implies #[trigger] assoc_get(s1, k2) == assoc_get(
        s0,
        k2,
    ) by {
        lemma_assoc_remove(s0, i, k2);
    }
}

/// Address-only wallet store: one address per chain, keyed by the chain's
/// case-folded identifier.
pub struct WalletStore {
    addresses: Vec<(String, String)>,
}

impl View for WalletStore {
    type V = Map<Seq<char>, Seq<char>>;

    closed spec fn view(&self) -> Map<Seq<char>, Seq<char>> {
        Map::new(
            |k: Seq<char>| assoc_get(self.addresses@, k) is Some,
            |k: Seq<char>|
                match assoc_get(self.addresses@, k) {
                    Some(v) => v,
                    None => Seq::empty(),
                },
        )
    }
}

impl Default for WalletStore {
    /// An empty store.
    fn default() -> (r: WalletStore)
        ensures
            r@ == Map::<Seq<char>, Seq<char>>::empty(),
            r.wf(),
    {
        let r = WalletStore { addresses: Vec::new() };
        proof {
            assert(r@ =~= Map::<Seq<char>, Seq<char>>::empty());
        }
        r
    }
}

impl WalletStore {
    /// The stored entry list itself.
    pub closed spec fn entries(&self) -> Seq<(String, String)> {
        self.addresses@
    }

    /// Well-formedness: keys are case-folded and no chain is listed twice.
    /// Every constructor establishes it and every method keeps it.
    pub closed spec fn wf(&self) -> bool {
        distinct_keys(self.addresses@) && folded_keys(self.addresses@)
    }

    /// Index of the entry carrying `key`, when one exists.
    fn find(&self, key: &str) -> (r: Option<usize>)
        ensures
            r matches Some(i) ==> i < self.addresses@.len() && self.addresses@[i as int].0@
                == key@,
            r is None ==> forall|i: int|
                0 <= i < self.addresses@.len() ==> (#[trigger] self.addresses@[i].0@) != key@,
    {
        let mut i: usize = 0;
        while i < self.addresses.len()
            invariant
                i <= self.addresses@.len(),
                forall|j: int| 0 <= j < i ==> (#[trigger] self.addresses@[j].0@) != key@,
            decreases self.addresses@.len() - i,
        {
            if str_eq(self.addresses[i].0.as_str(), key) {
                return Some(i);
            }
            i = i + 1;
        }
        None
    }

    /// The address stored for `chain`, if any; the lookup key is the
    /// case-folded identifier, so the spelling of `chain` does not matter.
    pub fn get_address(&self, chain: &str) -> (r: Option<String>)
        requires
            self.wf(),
        ensures
            r is Some <==> self@.contains_key(lower_chars(chain@)),
            r matches Some(a) ==> a@ == self@[lower_chars(chain@)],
    {
        let key = lowercase_string(chain);
        match self.find(key.as_str()) {
            Some(i) => {
                proof {
                    lemma_assoc_found(self.addresses@, i as int, key@);
                }
                Some(self.addresses[i].1.clone())
            },
            None => {
                proof {
                    lemma_assoc_none(self.addresses@, key@);
                }
                None
            },
        }
    }

    /// Stores `address` for `chain`, replacing any previous address stored
    /// under the same case-folded identifier.
    pub fn set_address(&mut self, chain: &str, address: &str)
        requires
            old(self).wf(),
        ensures
            final(self)@ == old(self)@.insert(lower_chars(chain@), address@),
            final(self).wf(),
    {
        let key = lowercase_string(chain);
        let ghost s0 = self.addresses@;
        match self.find(key.as_str()) {
            Some(i) => {
                self.addresses.remove(i);
                proof {
                    lemma_removed_entry_facts(s0, self.addresses@, i as int, key@);
                }
            },
            None => {
                proof {
                    assert(forall|j: int|
                        0 <= j < self.addresses@.len() ==> (#[trigger] self.addresses@[j].0@)
                            != key@);
                }
            },
        }
        let ghost s1 = self.addresses@;
        self.addresses.push((key, String::from_str(address)));
        proof {
            assert(self.addresses@.drop_last() =~= s1);
            lemma_lower_chars_idempotent(chain@);
            assert(distinct_keys(self.addresses@)) by {
                assert forall|i: int, j: int|
                    0 <= i < j < self.addresses@.len() implies self.addresses@[i].0@
                    != self.addresses@[j].0@ by {
                    assert(self.addresses@[i] == s1[i]);
                    if j < self.addresses@.len() - 1 {
                        assert(self.addresses@[j] == s1[j]);
                    }
                }
            }
            assert(folded_keys(self.addresses@)) by {
                assert forall|i: int|
                    0 <= i < self.addresses@.len() implies lower_chars(
                    #[trigger] self.addresses@[i].0@,
                ) == self.addresses@[i].0@ by {
                    if i < self.addresses@.len() - 1 {
                        assert(self.addresses@[i] == s1[i]);
                    }
                }
            }
            assert forall|k2: Seq<char>| k2 != key@ implies #[trigger] assoc_get(
                self.addresses@,
                k2,
            ) == assoc_get(s0, k2) by {
                if exists|j: int| 0 <= j < s0.len() && (#[trigger] s0[j].0@) == key@ {
                    let j = choose|j: int| 0 <= j < s0.len() && (#[trigger] s0[j].0@) == key@;
                    lemma_assoc_remove(s0, j, k2);
                }
            }
            assert(self@ =~= old(self)@.insert(lower_chars(chain@), address@));
        }
    }

    /// Removes and returns the address stored for `chain`, if any.
    pub fn remove_address(&mut self, chain: &str) -> (r: Option<String>)
        requires
            old(self).wf(),
        ensures
            final(self)@ == old(self)@.remove(lower_chars(chain@)),
            r is Some <==> old(self)@.contains_key(lower_chars(chain@)),
            r matches Some(a) ==> a@ == old(self)@[lower_chars(chain@)],
            final(self).wf(),
    {
        let key = lowercase_string(chain);
        let ghost s0 = self.addresses@;
        match self.find(key.as_str()) {
            Some(i) => {
                proof {
                    lemma_assoc_found(s0, i as int, key@);
                }
                let pair = self.addresses.remove(i);
                proof {
                    lemma_removed_entry_facts(s0, self.addresses@, i as int, key@);
                    lemma_assoc_none(self.addresses@, key@);
                    assert forall|k2: Seq<char>| k2 != key@ implies #[trigger] assoc_get(
                        self.addresses@,
                        k2,
                    ) == assoc_get(s0, k2) by {
                        lemma_assoc_remove(s0, i as int, k2);
                    }
                    assert(self@ =~= old(self)@.remove(lower_chars(chain@)));
                }
                Some(pair.1)
            },
            None => {
                proof {
                    lemma_assoc_none(s0, key@);
                    assert(self@ =~= old(self)@.remove(lower_chars(chain@)));
                }
                None
            },
        }
    }

    /// The stored entries themselves. Each listed pair is in the mapping, and
    /// every mapped chain is listed.
    pub fn list_addresses(&self) -> (r: &Vec<(String, String)>)
        requires
            self.wf(),
        ensures
            r@ == self.entries(),
            forall|i: int|
                0 <= i < r@.len() ==> self@.contains_key(#[trigger] r@[i].0@) && self@[r@[i].0@]
                    == r@[i].1@,
            forall|k: Seq<char>|
                self@.contains_key(k) ==> exists|i: int|
                    0 <= i < r@.len() && (#[trigger] r@[i].0@) == k,
    {
        proof {
            assert forall|i: int|
                0 <= i < self.addresses@.len() implies self@.contains_key(
                #[trigger] self.addresses@[i].0@,
            ) && self@[self.addresses@[i].0@] == self.addresses@[i].1@ by {
                lemma_assoc_found(self.addresses@, i, self.addresses@[i].0@);
            }
            assert forall|k: Seq<char>| self@.contains_key(k) implies exists|i: int|
                0 <= i < self.addresses@.len() && (#[trigger] self.addresses@[i].0@) == k by {
                lemma_assoc_some_exists(self.addresses@, k);
            }
        }
        &self.addresses
    }

    /// Rebuilds a store from persisted entries, case-folding every key and
    /// letting a later entry for the same chain replace an earlier one.
    pub fn from_entries(entries: &Vec<(String, String)>) -> (r: WalletStore)
        ensures
            r@ == map_of_entries(entries@),
            r.wf(),
    {
        let mut store = WalletStore::default();
        let mut i: usize = 0;
        while i < entries.len()
            invariant
                i <= entries@.len(),
                store.wf(),
                store@ == map_of_entries(entries@.take(i as int)),
            decreases entries@.len() - i,
        {
            let pair = &entries[i];
            store.set_address(pair.0.as_str(), pair.1.as_str());
            proof {
                assert(entries@.take(i + 1).drop_last() =~= entries@.take(i as int));
            }
            i = i + 1;
        }
        proof {
            assert(entries@.take(entries@.len() as int) =~= entries@);
        }
        store
    }
}

/// The mapping a list of raw entries stands for: keys case-folded, later
/// entries replacing earlier ones.
pub open spec fn map_of_entries(s: Seq<(String, String)>) -> Map<Seq<char>, Seq<char>>
    decreases s.len(),
{
    if s.len() == 0 {
        Map::empty()
    } else {
        map_of_entries(s.drop_last()).insert(lower_chars(s.last().0@), s.last().1@)
    }
}

proof fn lemma_map_of_entries_assoc(s: Seq<(String, String)>)
    requires
        folded_keys(s),
    ensures
        forall|k: Seq<char>|
            (#[trigger] assoc_get(s, k)) is Some <==> map_of_entries(s).contains_key(k),
        forall|k: Seq<char>|
            (#[trigger] assoc_get(s, k)) is Some ==> map_of_entries(s)[k] == assoc_get(
                s,
                k,
            ).unwrap(),
    decreases s.len(),
{
    if s.len() > 0 {
        let t = s.drop_last();
        assert(folded_keys(t)) by {
            assert forall|i: int|
                0 <= i < t.len() implies lower_chars(#[trigger] t[i].0@) == t[i].0@ by {
                assert(t[i] == s[i]);
            }
        }
        lemma_map_of_entries_assoc(t);
        let kl = s.last().0@;
        assert(lower_chars(s[s.len() - 1].0@) == s[s.len() - 1].0@);
        assert(map_of_entries(s) == map_of_entries(t).insert(kl, s.last().1@));
        assert forall|k: Seq<char>|
            (#[trigger] assoc_get(s, k)) is Some <==> map_of_entries(s).contains_key(k) by {
            if k != kl {
                assert(assoc_get(s, k) == assoc_get(t, k));
            }
        }
        assert forall|k: Seq<char>|
            (#[trigger] assoc_get(s, k)) is Some implies map_of_entries(s)[k] == assoc_get(
            s,
            k,
        ).unwrap() by {
            if k != kl {
                assert(assoc_get(s, k) == assoc_get(t, k));
            }
        }
    }
}

/// The persisted representation round-trips exactly through the mapping
/// operations: rebuilding a store from the entries that `list_addresses`
/// hands out yields the very same mapping.
pub proof fn lemma_store_entries_roundtrip(store: &WalletStore)
    requires
        store.wf(),
    ensures
        map_of_entries(store.entries()) == store@,
{
    lemma_map_of_entries_assoc(store.entries());
    assert(map_of_entries(store.entries()) =~= store@);
}

/// Chain keys are case-folded on store and on lookup: an address stored under
/// one spelling of a chain's name is found under every spelling that folds to
/// the same identifier.
pub proof fn lemma_store_case_insensitive(
    m: Map<Seq<char>, Seq<char>>,
    chain_a: Seq<char>,
    chain_b: Seq<char>,
    addr: Seq<char>,
)
    requires
        lower_chars(chain_a) == lower_chars(chain_b),
    ensures
        m.insert(lower_chars(chain_a), addr).contains_key(lower_chars(chain_b)),
        m.insert(lower_chars(chain_a), addr)[lower_chars(chain_b)] == addr,
{
}

} // verus!
