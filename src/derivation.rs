//! Hierarchical key derivation: BIP32 over secp256k1 and SLIP-10 over Ed25519.
use vstd::prelude::*;

use crate::crypto::{
    bip39_seed, hmac_sha512, hmac_sha512_of, is_valid_mnemonic, mnemonic_seed,
    secp256k1_add_scalars, secp256k1_point_of, secp256k1_public_key, slip10_ed25519,
    slip10_ed25519_key,
};
use crate::encoding::{append_bytes, be_value, copy_range, is_secp256k1_scalar, secp256k1_order};
use crate::error::WalletError;

verus! {

/// Added to an index to make it hardened.
pub const HARDENED: u32 = 0x8000_0000;

/// The elliptic curve that a private key belongs to.
#[derive(Debug, Clone, Copy, PartialEq, Eq, Structural)]
pub enum Curve {
    Secp256k1,
    Ed25519,
}

/// A 32-byte secret scalar bound to one curve.
#[derive(Debug)]
pub struct PrivateKey {
    pub curve: Curve,
    pub bytes: Vec<u8>,
}

/// `m/44'/60'/0'/0/0`, the default account of account-based chains.
pub open spec fn evm_path() -> Seq<u32> {
    seq![0x8000_002Cu32, 0x8000_003Cu32, 0x8000_0000u32, 0u32, 0u32]
}

/// `m/44'/501'/0'/0'`, every segment hardened.
pub open spec fn solana_path() -> Seq<u32> {
    seq![0x8000_002Cu32, 0x8000_01F5u32, 0x8000_0000u32, 0x8000_0000u32]
}

/// The HMAC key of a BIP32 master key: the ASCII text `Bitcoin seed`.
pub open spec fn bip32_seed_key() -> Seq<u8> {
    seq![66u8, 105, 116, 99, 111, 105, 110, 32, 115, 101, 101, 100]
}

/// The `len` big-endian bytes of `v` modulo `256^len`.
pub open spec fn be_bytes(v: nat, len: nat) -> Seq<u8>
    decreases len,
{
    if len == 0 {
        Seq::empty()
    } else {
        be_bytes(v / 256, (len - 1) as nat).push((v % 256) as u8)
    }
}

/// The four big-endian bytes of an index.
pub open spec fn be32(i: u32) -> Seq<u8> {
    be_bytes(i as nat, 4)
}

/// The compressed SEC1 encoding of the public point of a secret scalar: a tag
/// for the parity of `y`, then `x`.
pub open spec fn compressed_point_of(secret: Seq<u8>) -> Seq<u8> {
    let p = secp256k1_point_of(secret);
    seq![if p[64] % 2 == 0 { 2u8 } else { 3u8 }] + p.subrange(1, 33)
}

/// A BIP32 extended private key: the secret scalar and the chain code.
pub type ExtendedKey = (Seq<u8>, Seq<u8>);

/// The master key of a seed, where its left half is a valid scalar.
pub open spec fn bip32_master(seed: Seq<u8>) -> Option<ExtendedKey> {
    let i = hmac_sha512_of(bip32_seed_key(), seed);
    if is_secp256k1_scalar(i.subrange(0, 32)) {
        Some((i.subrange(0, 32), i.subrange(32, 64)))
    } else {
        None
    }
}

/// The child of `parent` at `index` (hardened from `2^31` on), where it is a valid key.
pub open spec fn bip32_child(parent: ExtendedKey, index: u32) -> Option<ExtendedKey> {
    let data = if index >= HARDENED {
        seq![0u8] + parent.0 + be32(index)
    } else {
        compressed_point_of(parent.0) + be32(index)
    };
    let i = hmac_sha512_of(parent.1, data);
    let tweak = i.subrange(0, 32);
    let sum = (be_value(tweak) + be_value(parent.0)) % secp256k1_order();
    if !is_secp256k1_scalar(tweak) || sum == 0 {
        None
    } else {
        Some((be_bytes(sum, 32), i.subrange(32, 64)))
    }
}

/// The extended key reached from the master key of `seed` along `path`.
pub open spec fn bip32_derive(seed: Seq<u8>, path: Seq<u32>) -> Option<ExtendedKey>
    decreases path.len(),
{
    if path.len() == 0 {
        bip32_master(seed)
    } else {
        match bip32_derive(seed, path.drop_last()) {
            Some(k) => bip32_child(k, path.last()),
            None => None,
        }
    }
}

/// The secp256k1 key of a phrase along the default account path.
pub open spec fn secp256k1_key_of_phrase(phrase: Seq<char>) -> Result<Seq<u8>, WalletError> {
    if !is_valid_mnemonic(phrase) {
        Err(WalletError::DerivationError)
    } else {
        match bip32_derive(bip39_seed(phrase), evm_path()) {
            Some(k) => Ok(k.0),
            None => Err(WalletError::DerivationError),
        }
    }
}

/// The Ed25519 key of a phrase along the Solana path.
pub open spec fn ed25519_key_of_phrase(phrase: Seq<char>) -> Result<Seq<u8>, WalletError> {
    if !is_valid_mnemonic(phrase) {
        Err(WalletError::DerivationError)
    } else {
        Ok(slip10_ed25519_key(bip39_seed(phrase), solana_path()))
    }
}

/// `r` holds the bytes that `s` describes, or the same error.
pub open spec fn bytes_result_is(r: Result<Vec<u8>, WalletError>, s: Result<Seq<u8>, WalletError>) -> bool {
    match r {
        Ok(v) => s == Ok::<Seq<u8>, WalletError>(v@),
        Err(e) => s == Err::<Seq<u8>, WalletError>(e),
    }
}

/// A 32-byte string is the big-endian encoding of its own value.
pub proof fn lemma_be_bytes_of_value(s: Seq<u8>)
    ensures
        be_bytes(be_value(s), s.len()) == s,
    decreases s.len(),
{
    if s.len() > 0 {
        let v = be_value(s.drop_last());
        let b = s.last() as nat;
        assert((v * 256 + b) / 256 == v && (v * 256 + b) % 256 == b) by (nonlinear_arith)
            requires
                b < 256,
        ;
        lemma_be_bytes_of_value(s.drop_last());
        assert(be_bytes(be_value(s), s.len()) =~= s);
    }
}

/// The path of the default account.
pub fn evm_path_indices() -> (r: Vec<u32>)
    ensures
        r@ == evm_path(),
{
    let r = vec![HARDENED + 44, HARDENED + 60, HARDENED, 0, 0];
    proof {
        assert(r@ =~= evm_path());
    }
    r
}

/// The Solana path.
pub fn solana_path_indices() -> (r: Vec<u32>)
    ensures
        r@ == solana_path(),
{
    let r = vec![HARDENED + 44, HARDENED + 501, HARDENED, HARDENED];
    proof {
        assert(r@ =~= solana_path());
    }
    r
}

/// The four big-endian bytes of an index.
fn index_bytes(i: u32) -> (r: Vec<u8>)
    ensures
        r@ == be32(i),
{
    let r = vec![(i / 0x100_0000) as u8, (i / 0x1_0000 % 256) as u8, (i / 256 % 256) as u8, (i % 256) as u8];
    proof {
        let v = i as nat;
        assert(be32(i) == be_bytes(v, 4));
        assert(be_bytes(v, 4) =~= seq![(v / 256 / 256 / 256 % 256) as u8, (v / 256 / 256 % 256) as u8, (v / 256 % 256) as u8, (v % 256) as u8]) by {
            reveal_with_fuel(be_bytes, 5);
        }
        assert(v / 256 / 256 / 256 == v / 0x100_0000 && v / 256 / 256 == v / 0x1_0000) by (nonlinear_arith);
        assert(v / 0x100_0000 < 256);
        assert(r@ =~= be32(i));
    }
    r
}

/// The compressed encoding of the public point of a secret scalar.
pub fn compressed_public_key(secret: &[u8]) -> (r: Vec<u8>)
    requires
        is_secp256k1_scalar(secret@),
    ensures
        r@ == compressed_point_of(secret@),
        r@.len() == 33,
{
    let p = match secp256k1_public_key(secret) {
        Some(p) => p,
        None => {
            proof {
                assert(false);
            }
            Vec::new()
        },
    };
    let mut r: Vec<u8> = Vec::new();
    if p[64] % 2 == 0 {
        r.push(2u8);
    } else {
        r.push(3u8);
    }
    let x = copy_range(p.as_slice(), 1, 33);
    append_bytes(&mut r, x.as_slice());
    proof {
        assert(r@ =~= compressed_point_of(secret@));
    }
    r
}

/// The BIP32 master key of a seed.
pub fn bip32_master_key(seed: &[u8]) -> (r: Option<(Vec<u8>, Vec<u8>)>)
    ensures
        match r {
            Some(k) => bip32_master(seed@) == Some((k.0@, k.1@)),
            None => bip32_master(seed@) is None,
        },
        r matches Some(k) ==> is_secp256k1_scalar(k.0@) && k.1@.len() == 32,
{
    let label: Vec<u8> = vec![66u8, 105, 116, 99, 111, 105, 110, 32, 115, 101, 101, 100];
    proof {
        assert(label@ =~= bip32_seed_key());
    }
    let i = hmac_sha512(label.as_slice(), seed);
    let key = copy_range(i.as_slice(), 0, 32);
    let chain = copy_range(i.as_slice(), 32, 64);
    if secp256k1_public_key(key.as_slice()).is_none() {
        return None;
    }
    Some((key, chain))
}

/// One BIP32 private child derivation step.
pub fn bip32_child_key(key: &[u8], chain: &[u8], index: u32) -> (r: Option<(Vec<u8>, Vec<u8>)>)
    requires
        is_secp256k1_scalar(key@),
    ensures
        match r {
            Some(k) => bip32_child((key@, chain@), index) == Some((k.0@, k.1@)),
            None => bip32_child((key@, chain@), index) is None,
        },
        r matches Some(k) ==> is_secp256k1_scalar(k.0@) && k.1@.len() == 32,
{
    let mut data: Vec<u8> = Vec::new();
    if index >= HARDENED {
        data.push(0u8);
        append_bytes(&mut data, key);
    } else {
        let point = compressed_public_key(key);
        append_bytes(&mut data, point.as_slice());
    }
    let index_be = index_bytes(index);
    append_bytes(&mut data, index_be.as_slice());
    let i = hmac_sha512(chain, data.as_slice());
    let tweak = copy_range(i.as_slice(), 0, 32);
    let child_chain = copy_range(i.as_slice(), 32, 64);
    proof {
        if index >= HARDENED {
            assert(data@ =~= seq![0u8] + key@ + be32(index));
        } else {
            assert(data@ =~= compressed_point_of(key@) + be32(index));
        }
    }
    if secp256k1_public_key(tweak.as_slice()).is_none() {
        return None;
    }
    match secp256k1_add_scalars(tweak.as_slice(), key) {
        Some(child) => {
            proof {
                lemma_be_bytes_of_value(child@);
            }
            Some((child, child_chain))
        },
        None => None,
    }
}

/// The BIP32 secret key reached from the master key of `seed` along `path`.
pub fn bip32_derive_key(seed: &[u8], path: &[u32]) -> (r: Option<Vec<u8>>)
    ensures
        match r {
            Some(k) => bip32_derive(seed@, path@) matches Some(e) && e.0 == k@,
            None => bip32_derive(seed@, path@) is None,
        },
{
    let (mut key, mut chain) = match bip32_master_key(seed) {
        Some(k) => k,
        None => {
            proof {
                assert(path@.subrange(0, 0) =~= Seq::<u32>::empty());
                lemma_derive_none_extends(seed@, path@, 0);
            }
            return None;
        },
    };
    let mut i: usize = 0;
    proof {
        assert(path@.subrange(0, 0) =~= Seq::<u32>::empty());
    }
    while i < path.len()
        invariant
            i <= path@.len(),
            is_secp256k1_scalar(key@),
            bip32_derive(seed@, path@.subrange(0, i as int)) == Some((key@, chain@)),
        decreases path@.len() - i,
    {
        let step = bip32_child_key(key.as_slice(), chain.as_slice(), path[i]);
        proof {
            let pre = path@.subrange(0, i + 1);
            assert(pre.drop_last() =~= path@.subrange(0, i as int));
        }
        match step {
            Some(next) => {
                key = next.0;
                chain = next.1;
            },
            None => {
                proof {
                    lemma_derive_none_extends(seed@, path@, i + 1);
                }
                return None;
            },
        }
        i = i + 1;
    }
    proof {
        assert(path@.subrange(0, path@.len() as int) =~= path@);
    }
    Some(key)
}

/// Once derivation has failed on a prefix of a path, it fails on the whole path.
proof fn lemma_derive_none_extends(seed: Seq<u8>, path: Seq<u32>, n: int)
    requires
        0 <= n <= path.len(),
        bip32_derive(seed, path.subrange(0, n)) is None,
    ensures
        bip32_derive(seed, path) is None,
    decreases path.len() - n,
{
    if n < path.len() {
        assert(path.subrange(0, n + 1).drop_last() =~= path.subrange(0, n));
        lemma_derive_none_extends(seed, path, n + 1);
    } else {
        assert(path.subrange(0, n) =~= path);
    }
}

/// The secp256k1 private key of a mnemonic along `m/44'/60'/0'/0/0`.
pub fn secp256k1_key_from_phrase(phrase: &str) -> (r: Result<Vec<u8>, WalletError>)
    ensures
        bytes_result_is(r, secp256k1_key_of_phrase(phrase@)),
        r matches Ok(k) ==> is_secp256k1_scalar(k@),
{
    let seed = match mnemonic_seed(phrase) {
        Some(s) => s,
        None => return Err(WalletError::DerivationError),
    };
    let path = evm_path_indices();
    match bip32_derive_key(seed.as_slice(), path.as_slice()) {
        Some(k) => {
            proof {
                lemma_derived_keys_are_scalars(seed@, path@);
            }
            Ok(k)
        },
        None => Err(WalletError::DerivationError),
    }
}

/// Every key that BIP32 derivation reaches is a valid secp256k1 scalar.
pub proof fn lemma_derived_keys_are_scalars(seed: Seq<u8>, path: Seq<u32>)
    ensures
        bip32_derive(seed, path) matches Some(k) ==> is_secp256k1_scalar(k.0),
    decreases path.len(),
{
    if path.len() > 0 {
        lemma_derived_keys_are_scalars(seed, path.drop_last());
        if let Some(k) = bip32_derive(seed, path) {
            let parent = bip32_derive(seed, path.drop_last())->Some_0;
            let index = path.last();
            let data = if index >= HARDENED {
                seq![0u8] + parent.0 + be32(index)
            } else {
                compressed_point_of(parent.0) + be32(index)
            };
            let i = hmac_sha512_of(parent.1, data);
            let sum = (be_value(i.subrange(0, 32)) + be_value(parent.0)) % secp256k1_order();
            lemma_be_bytes_value(sum, 32);
        }
    }
}

/// Big-endian bytes of a value below `256^len` have that value.
pub proof fn lemma_be_bytes_value(v: nat, len: nat)
    requires
        v < secp256k1_order(),
        len == 32,
    ensures
        be_value(be_bytes(v, len)) == v,
        be_bytes(v, len).len() == len,
{
    lemma_be_bytes_value_general(v, len);
    assert(secp256k1_order() < pow256(32)) by {
        reveal_with_fuel(pow256, 33);
    }
    vstd::arithmetic::div_mod::lemma_small_mod(v, pow256(32));
}

/// `256^n`.
pub open spec fn pow256(n: nat) -> nat
    decreases n,
{
    if n == 0 {
        1
    } else {
        256 * pow256((n - 1) as nat)
    }
}

proof fn lemma_be_bytes_value_general(v: nat, len: nat)
    ensures
        be_value(be_bytes(v, len)) == v % pow256(len),
        be_bytes(v, len).len() == len,
    decreases len,
{
    if len > 0 {
        lemma_be_bytes_value_general(v / 256, (len - 1) as nat);
        let b = be_bytes(v, len);
        assert(b.drop_last() =~= be_bytes(v / 256, (len - 1) as nat));
        let p = pow256((len - 1) as nat);
        assert(p > 0) by {
            lemma_pow256_positive((len - 1) as nat);
        }
        assert((v / 256) % p * 256 + v % 256 == v % (256 * p)) by {
            vstd::arithmetic::div_mod::lemma_breakdown(v as int, 256, p as int);
        }
    }
}

proof fn lemma_pow256_positive(n: nat)
    ensures
        pow256(n) > 0,
    decreases n,
{
    if n > 0 {
        lemma_pow256_positive((n - 1) as nat);
    }
}

/// The Ed25519 private key of a mnemonic along `m/44'/501'/0'/0'`.
pub fn ed25519_key_from_phrase(phrase: &str) -> (r: Result<Vec<u8>, WalletError>)
    ensures
        bytes_result_is(r, ed25519_key_of_phrase(phrase@)),
        r matches Ok(k) ==> k@.len() == 32,
{
    let seed = match mnemonic_seed(phrase) {
        Some(s) => s,
        None => return Err(WalletError::DerivationError),
    };
    let path = solana_path_indices();
    match slip10_ed25519(seed.as_slice(), path.as_slice()) {
        Some(k) => Ok(k),
        None => {
            proof {
                assert(path@[0] >= HARDENED && path@[1] >= HARDENED && path@[2] >= HARDENED
                    && path@[3] >= HARDENED);
            }
            Err(WalletError::DerivationError)
        },
    }
}

} // verus!
