//! Deterministic address derivation from seed material.
//!
//! The derivation walks the path level by level, absorbing each level's index
//! and hardening flag into a running state, and encodes part of the final
//! state as the address payload. It is a stand-in mixing construction, not
//! the chain's production key-tree scheme, but its contract pins the exact
//! output for every input: identical seed, path and network always give the
//! identical address, and any change to one of them changes the state that is
//! absorbed.

use vstd::prelude::*;

use crate::errors::WalletError;
use crate::text::{hex_encode, spec_hex, string_from_chars};
use vstd::slice::slice_subrange;
use vstd::string::StringExecFns;

verus! {

/// The network an address is tagged for, encoded in its prefix.
#[derive(Clone, Copy, PartialEq, Eq, Structural)]
pub enum Network {
    Mainnet,
    Testnet,
}

/// One level of a derivation path: a child index and whether the level is
/// hardened.
#[derive(Clone, Copy, PartialEq, Eq, Structural)]
pub struct PathLevel {
    pub index: u32,
    pub hardened: bool,
}

/// The 64-byte all-zero mixing state.
pub open spec fn zero_state() -> Seq<u8> {
    Seq::new(64, |i: int| 0u8)
}

/// One absorption step: byte `b`, at input position `i`, is folded into the
/// state at `i % 64` by xor and at `(i + 17) % 64` by wrapping addition.
pub open spec fn hash_step(state: Seq<u8>, b: u8, i: int) -> Seq<u8>
    recommends
        state.len() == 64,
        0 <= i,
{
    let s1 = state.update(i % 64, state[i % 64] ^ b);
    s1.update((i + 17) % 64, (((s1[(i + 17) % 64] as int) + (b as int)) % 256) as u8)
}

/// The state after absorbing the first `k` input bytes.
pub open spec fn hash_state(input: Seq<u8>, k: int) -> Seq<u8>
    decreases k,
{
    if k <= 0 {
        zero_state()
    } else {
        hash_step(hash_state(input, k - 1), input[k - 1], k - 1)
    }
}

/// The 64-byte digest of the mixing construction over a whole input.
pub open spec fn spec_simple_hash(input: Seq<u8>) -> Seq<u8> {
    hash_state(input, input.len() as int)
}

pub proof fn lemma_hash_state_len(input: Seq<u8>, k: int)
    ensures
        hash_state(input, k).len() == 64,
    decreases k,
{
    if k > 0 {
        lemma_hash_state_len(input, k - 1);
    }
}

/// Non-cryptographic mixing of a byte string into a 64-byte digest.
pub fn simple_hash(input: &[u8]) -> (r: Vec<u8>)
    ensures
        r@ == spec_simple_hash(input@),
        r@.len() == 64,
{
    let mut result: Vec<u8> = Vec::new();
    let mut z: usize = 0;
    while z < 64
        invariant
            z <= 64,
            result@ =~= Seq::new(z as nat, |i: int| 0u8),
        decreases 64 - z,
    {
        result.push(0u8);
        z = z + 1;
    }
    proof {
        assert(result@ =~= zero_state());
    }
    let n: usize = input.len();
    let mut i: usize = 0;
    while i < n
        invariant
            n == input@.len(),
            i <= n,
            result@ == hash_state(input@, i as int),
            result@.len() == 64,
        decreases n - i,
    {
        let b = input[i];
        let idx1: usize = i % 64;
        let v1 = result[idx1] ^ b;
        result[idx1] = v1;
        let idx2: usize = (i % 64 + 17) % 64;
        proof {
            assert(idx2 == ((i as int) + 17) % 64) by (nonlinear_arith)
                requires
                    idx2 == ((i as int) % 64 + 17) % 64,
                    0 <= i,
            ;
        }
        let v2 = result[idx2].wrapping_add(b);
        result[idx2] = v2;
        i = i + 1;
    }
    result
}

/// The five bytes a path level absorbs: the index, most significant byte
/// first, then the hardening flag.
pub open spec fn level_bytes(l: PathLevel) -> Seq<u8> {
    seq![
        (l.index >> 24) as u8,
        (l.index >> 16) as u8,
        (l.index >> 8) as u8,
        l.index as u8,
        if l.hardened {
            1u8
        } else {
            0u8
        },
    ]
}

/// The mixing state after the first `k` path levels: the digest of the first
/// 32 seed bytes, rehashed with each level's bytes appended in turn.
pub open spec fn derive_state(seed: Seq<u8>, path: Seq<PathLevel>, k: int) -> Seq<u8>
    decreases k,
{
    if k <= 0 {
        spec_simple_hash(seed.take(32))
    } else {
        spec_simple_hash(derive_state(seed, path, k - 1) + level_bytes(path[k - 1]))
    }
}

pub proof fn lemma_derive_state_len(seed: Seq<u8>, path: Seq<PathLevel>, k: int)
    ensures
        derive_state(seed, path, k).len() == 64,
    decreases k,
{
    if k <= 0 {
        lemma_hash_state_len(seed.take(32), seed.take(32).len() as int);
    } else {
        lemma_derive_state_len(seed, path, k - 1);
        let input = derive_state(seed, path, k - 1) + level_bytes(path[k - 1]);
        lemma_hash_state_len(input, input.len() as int);
    }
}

/// The address prefix that tags a network.
pub open spec fn net_prefix(network: Network) -> Seq<char> {
    match network {
        Network::Mainnet => "addr1qx"@,
        Network::Testnet => "addr_test1qx"@,
    }
}

/// The address text derived from seed, path and network: the network prefix
/// followed by the hex encoding of the first 50 bytes of the final state.
pub open spec fn spec_derive_address(seed: Seq<u8>, path: Seq<PathLevel>, network: Network) -> Seq<
    char,
> {
    net_prefix(network) + spec_hex(derive_state(seed, path, path.len() as int).take(50))
}

/// Derives the address for `seed` along `path`, tagged for `network`.
/// Deterministic: identical inputs always yield the identical address. Fails,
/// rather than substituting a different address, when the seed is shorter
/// than 32 bytes or the path does not have five levels.
pub fn derive_address(seed: &[u8], path: &Vec<PathLevel>, network: Network) -> (r: Result<
    String,
    WalletError,
>)
    ensures
        r is Ok <==> (seed@.len() >= 32 && path@.len() == 5),
        r matches Ok(a) ==> a@ == spec_derive_address(seed@, path@, network),
        r matches Err(e) ==> e matches WalletError::Derivation,
{
    if seed.len() < 32 || path.len() != 5 {
        return Err(WalletError::Derivation);
    }
    let mut state: Vec<u8> = simple_hash(slice_subrange(seed, 0, 32));
    let mut k: usize = 0;
    while k < path.len()
        invariant
            path@.len() == 5,
            seed@.len() >= 32,
            k <= 5,
            state@ == derive_state(seed@, path@, k as int),
            state@.len() == 64,
        decreases path@.len() - k,
    {
        let level = path[k];
        let mut buf: Vec<u8> = Vec::new();
        let mut j: usize = 0;
        while j < state.len()
            invariant
                j <= state@.len(),
                buf@ =~= state@.take(j as int),
            decreases state@.len() - j,
        {
            buf.push(state[j]);
            j = j + 1;
        }
        proof {
            assert(buf@ =~= state@);
        }
        buf.push((level.index >> 24) as u8);
        buf.push((level.index >> 16) as u8);
        buf.push((level.index >> 8) as u8);
        buf.push(level.index as u8);
        buf.push(
            if level.hardened {
                1u8
            } else {
                0u8
            },
        );
        proof {
            assert(buf@ =~= state@ + level_bytes(path@[k as int]));
        }
        state = simple_hash(buf.as_slice());
        k = k + 1;
    }
    let payload = hex_encode(slice_subrange(state.as_slice(), 0, 50));
    let prefix: &str = match network {
        Network::Mainnet => "addr1qx",
        Network::Testnet => "addr_test1qx",
    };
    let mut out = String::from_str(prefix);
    out.append(string_from_chars(payload).as_str());
    proof {
        assert(state@.subrange(0, 50) =~= derive_state(seed@, path@, 5).take(50));
    }
    Ok(out)
}

/// Determinism of derivation: the address is a function of seed, path and
/// network alone, so any two derivations from identical inputs are
/// character-for-character identical. This is what lets a caller recover the
/// same address from a phrase alone.
pub proof fn lemma_derivation_deterministic(
    seed: Seq<u8>,
    path: Seq<PathLevel>,
    network: Network,
    a1: Seq<char>,
    a2: Seq<char>,
)
    requires
        a1 == spec_derive_address(seed, path, network),
        a2 == spec_derive_address(seed, path, network),
    ensures
        a1 == a2,
{
}

/// The chain's fixed five-level path for the first external address:
/// purpose 1852', coin type 1815', account 0', external role, index 0.
pub open spec fn spec_cardano_path() -> Seq<PathLevel> {
    seq![
        PathLevel { index: 1852, hardened: true },
        PathLevel { index: 1815, hardened: true },
        PathLevel { index: 0, hardened: true },
        PathLevel { index: 0, hardened: false },
        PathLevel { index: 0, hardened: false },
    ]
}

/// Builds the chain's default derivation path.
pub fn cardano_path() -> (r: Vec<PathLevel>)
    ensures
        r@ == spec_cardano_path(),
{
    let mut p: Vec<PathLevel> = Vec::new();
    p.push(PathLevel { index: 1852, hardened: true });
    p.push(PathLevel { index: 1815, hardened: true });
    p.push(PathLevel { index: 0, hardened: true });
    p.push(PathLevel { index: 0, hardened: false });
    p.push(PathLevel { index: 0, hardened: false });
    proof {
        assert(p@ =~= spec_cardano_path());
    }
    p
}

} // verus!
