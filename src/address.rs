//! Address encoding, one scheme per chain family.
use vstd::prelude::*;

use crate::chain::{ChainFamily, WalletType};
use crate::crypto::{
    base58_decodes, is_bitcoin_address_text, parses_as_bitcoin_address, base58, base58_of, base58check, base58check_of, ed25519_point_of, ed25519_public_key,
    hash160, hash160_of, hex_encode, keccak256, keccak256_of, secp256k1_point_of,
    secp256k1_public_key,
};
use crate::derivation::{compressed_point_of, compressed_public_key, Curve, PrivateKey};
use crate::encoding::{
    copy_range, hex_of, is_base58_char, is_hex_char, is_secp256k1_scalar, lemma_hex_of_shape,
};
use crate::error::WalletError;
use crate::wallet::WalletGenerator;

verus! {

/// `0x` and the hex of the low 20 bytes of the Keccak-256 of the uncompressed
/// public point without its tag byte.
pub open spec fn evm_address_of(secret: Seq<u8>) -> Seq<char> {
    "0x"@ + hex_of(keccak256_of(secp256k1_point_of(secret).subrange(1, 65)).subrange(12, 32))
}

/// Base58Check of the version byte and the hash160 of the compressed public point.
pub open spec fn p2pkh_address_of(version: u8, secret: Seq<u8>) -> Seq<char> {
    base58check_of(seq![version] + hash160_of(compressed_point_of(secret)))
}

/// Base58 of the Ed25519 public key.
pub open spec fn solana_address_of(secret: Seq<u8>) -> Seq<char> {
    base58_of(ed25519_point_of(secret))
}

/// The address of a key on a chain: refused where the key belongs to
/// another curve or is not a valid secret of its own.
pub open spec fn spec_address(t: WalletType, curve: Curve, secret: Seq<u8>) -> Result<Seq<char>, WalletError> {
    if curve != t.spec_family().spec_curve() {
        Err(WalletError::KeyEncodingError)
    } else {
        match t.spec_family() {
            ChainFamily::Evm => if is_secp256k1_scalar(secret) {
                Ok(evm_address_of(secret))
            } else {
                Err(WalletError::KeyEncodingError)
            },
            ChainFamily::BitcoinLike => if is_secp256k1_scalar(secret) {
                Ok(p2pkh_address_of(t.spec_p2pkh_version(), secret))
            } else {
                Err(WalletError::KeyEncodingError)
            },
            ChainFamily::Solana => if secret.len() == 32 {
                Ok(solana_address_of(secret))
            } else {
                Err(WalletError::KeyEncodingError)
            },
        }
    }
}

/// `0x` followed by 40 hex digits.
pub open spec fn is_evm_address_text(s: Seq<char>) -> bool {
    s.len() == 42 && s[0] == '0' && s[1] == 'x' && forall|i: int| 2 <= i < 42 ==> is_hex_char(#[trigger] s[i])
}

/// Every character of `s` is in the Base58 alphabet.
pub open spec fn is_base58_text(s: Seq<char>) -> bool {
    forall|i: int| 0 <= i < s.len() ==> is_base58_char(#[trigger] s[i])
}

/// `r` is what encoding `secret` for `t` gives: the address of `spec_address`,
/// `0x` and 40 hex digits in the account-based family and written in the
/// Base58 alphabet outside it.
pub open spec fn is_address_outcome(
    t: WalletType,
    curve: Curve,
    secret: Seq<u8>,
    r: Result<Seq<char>, WalletError>,
) -> bool {
    &&& r == spec_address(t, curve, secret)
    &&& (r matches Ok(a) ==> (t.spec_family() != ChainFamily::Evm ==> is_base58_text(a)))
    &&& (r matches Ok(a) ==> (t.spec_family() == ChainFamily::Evm ==> is_evm_address_text(a)))
}

impl WalletGenerator {
    /// The account-based address of a secp256k1 key.
    pub fn generate_eth_address(&self, private_key: &[u8]) -> (r: Result<String, WalletError>)
        ensures
            match r {
                Ok(a) => is_secp256k1_scalar(private_key@) && a@ == evm_address_of(private_key@)
                    && is_evm_address_text(a@),
                Err(e) => !is_secp256k1_scalar(private_key@) && e == WalletError::KeyEncodingError,
            },
    {
        let point = match secp256k1_public_key(private_key) {
            Some(p) => p,
            None => return Err(WalletError::KeyEncodingError),
        };
        let body = copy_range(point.as_slice(), 1, 65);
        let digest = keccak256(body.as_slice());
        let tail = copy_range(digest.as_slice(), 12, 32);
        let digits = hex_encode(tail.as_slice());
        let mut address = "0x".to_owned();
        address.append(digits.as_str());
        proof {
            reveal_strlit("0x");
            lemma_hex_of_shape(tail@);
            assert forall|i: int| 2 <= i < 42 implies is_hex_char(#[trigger] address@[i]) by {
                assert(address@[i] == digits@[i - 2]);
            }
        }
        Ok(address)
    }

    /// The pay-to-public-key-hash address of a secp256k1 key under a version byte.
    pub fn generate_btc_address(&self, private_key: &[u8], version: u8) -> (r: Result<String, WalletError>)
        ensures
            match r {
                Ok(a) => is_secp256k1_scalar(private_key@) && a@ == p2pkh_address_of(version, private_key@)
                    && is_base58_text(a@),
                Err(e) => !is_secp256k1_scalar(private_key@) && e == WalletError::KeyEncodingError,
            },
    {
        if secp256k1_public_key(private_key).is_none() {
            return Err(WalletError::KeyEncodingError);
        }
        let point = compressed_public_key(private_key);
        let digest = hash160(point.as_slice());
        let mut payload: Vec<u8> = vec![version];
        crate::encoding::append_bytes(&mut payload, digest.as_slice());
        proof {
            assert(payload@ =~= seq![version] + hash160_of(compressed_point_of(private_key@)));
        }
        Ok(base58check(payload.as_slice()))
    }

    /// The Solana address of an Ed25519 key: its public key in Base58.
    pub fn generate_sol_address(&self, private_key: &[u8]) -> (r: Result<String, WalletError>)
        ensures
            match r {
                Ok(a) => private_key@.len() == 32 && a@ == solana_address_of(private_key@)
                    && is_base58_text(a@),
                Err(e) => private_key@.len() != 32 && e == WalletError::KeyEncodingError,
            },
    {
        match ed25519_public_key(private_key) {
            Some(point) => Ok(base58(point.as_slice())),
            None => Err(WalletError::KeyEncodingError),
        }
    }

    /// Polygon addresses are account-based addresses.
    pub fn generate_polygon_address(&self, private_key: &[u8]) -> (r: Result<String, WalletError>)
        ensures
            match r {
                Ok(a) => is_secp256k1_scalar(private_key@) && a@ == evm_address_of(private_key@)
                    && is_evm_address_text(a@),
                Err(e) => !is_secp256k1_scalar(private_key@) && e == WalletError::KeyEncodingError,
            },
    {
        self.generate_eth_address(private_key)
    }

    /// Avalanche addresses are account-based addresses.
    pub fn generate_avax_address(&self, private_key: &[u8]) -> (r: Result<String, WalletError>)
        ensures
            match r {
                Ok(a) => is_secp256k1_scalar(private_key@) && a@ == evm_address_of(private_key@)
                    && is_evm_address_text(a@),
                Err(e) => !is_secp256k1_scalar(private_key@) && e == WalletError::KeyEncodingError,
            },
    {
        self.generate_eth_address(private_key)
    }

    /// The address of a key on the given chain; a key of the other curve is refused.
    pub fn generate_address(&self, key: &PrivateKey, wallet_type: &WalletType) -> (r: Result<String, WalletError>)
        ensures
            is_address_outcome(
                *wallet_type,
                key.curve,
                key.bytes@,
                match r {
                    Ok(a) => Ok(a@),
                    Err(e) => Err(e),
                },
            ),
    {
        let family = wallet_type.family();
        if key.curve != family.curve() {
            return Err(WalletError::KeyEncodingError);
        }
        match wallet_type {
            WalletType::Eth | WalletType::Ethereum => self.generate_eth_address(key.bytes.as_slice()),
            WalletType::Polygon => self.generate_polygon_address(key.bytes.as_slice()),
            WalletType::Avax => self.generate_avax_address(key.bytes.as_slice()),
            WalletType::Btc | WalletType::Bitcoin | WalletType::Litecoin | WalletType::Dogecoin => {
                self.generate_btc_address(key.bytes.as_slice(), wallet_type.p2pkh_version())
            },
            WalletType::Sol => self.generate_sol_address(key.bytes.as_slice()),
        }
    }
}

/// The shape check of an address for a chain: `0x` and 40 hex digits for the
/// account-based family, a parsable Bitcoin address for Bitcoin, and Base58
/// text for the rest.
pub open spec fn spec_validate_address(address: Seq<char>, t: WalletType) -> bool {
    match t {
        WalletType::Eth | WalletType::Ethereum | WalletType::Polygon | WalletType::Avax => address.len() == 42 && address[0] == '0'
            && address[1] == 'x' && forall|i: int| 2 <= i < 42 ==> is_hex_char(#[trigger] address[i]),
        WalletType::Btc | WalletType::Bitcoin => is_bitcoin_address_text(address),
        _ => is_base58_text(address),
    }
}

impl WalletGenerator {
    /// Whether `address` has the shape of an address of `wallet_type`.
    pub fn validate_address(&self, address: &str, wallet_type: WalletType) -> (r: Result<bool, WalletError>)
        ensures
            r == Ok::<bool, WalletError>(spec_validate_address(address@, wallet_type)),
    {
        match wallet_type {
            WalletType::Eth | WalletType::Ethereum | WalletType::Polygon | WalletType::Avax => {
                let n = address.unicode_len();
                if n != 42 || address.get_char(0) != '0' || address.get_char(1) != 'x' {
                    return Ok(false);
                }
                let mut i: usize = 2;
                while i < 42
                    invariant
                        n == 42,
                        address@.len() == 42,
                        address@[0] == '0' && address@[1] == 'x',
                        wallet_type == WalletType::Eth || wallet_type == WalletType::Ethereum
                            || wallet_type == WalletType::Polygon || wallet_type == WalletType::Avax,
                        2 <= i <= 42,
                        forall|j: int| 2 <= j < i ==> is_hex_char(#[trigger] address@[j]),
                    decreases 42 - i,
                {
                    let c = address.get_char(i);
                    if !(('0' <= c && c <= '9') || ('a' <= c && c <= 'f') || ('A' <= c && c <= 'F')) {
                        proof {
                            assert(!is_hex_char(address@[i as int]));
                        }
                        return Ok(false);
                    }
                    i = i + 1;
                }
                Ok(true)
            },
            WalletType::Btc | WalletType::Bitcoin => Ok(parses_as_bitcoin_address(address)),
            _ => Ok(base58_decodes(address)),
        }
    }
}

/// An address generated for a chain passes that chain's shape check, for
/// every chain whose check does not rest on parsing a Bitcoin address.
pub proof fn law_generated_address_validates(t: WalletType, curve: Curve, secret: Seq<u8>, address: Seq<char>)
    requires
        t != WalletType::Btc && t != WalletType::Bitcoin,
        is_address_outcome(t, curve, secret, Ok(address)),
    ensures
        spec_validate_address(address, t),
{
}

/// A key of the other curve is never encoded.
pub proof fn law_wrong_curve_refused(t: WalletType, curve: Curve, secret: Seq<u8>)
    requires
        curve != t.spec_family().spec_curve(),
    ensures
        spec_address(t, curve, secret) == Err::<Seq<char>, WalletError>(WalletError::KeyEncodingError),
{
}

/// The same bytes read as a secp256k1 key for an account-based chain and as an
/// Ed25519 key for Solana give different addresses.
pub proof fn law_curves_give_different_addresses(
    secret: Seq<u8>,
    evm_chain: WalletType,
    evm_address: Seq<char>,
    solana_address: Seq<char>,
)
    requires
        evm_chain.spec_family() == ChainFamily::Evm,
        is_address_outcome(evm_chain, Curve::Secp256k1, secret, Ok(evm_address)),
        is_address_outcome(WalletType::Sol, Curve::Ed25519, secret, Ok(solana_address)),
    ensures
        evm_address != solana_address,
{
    reveal_strlit("0x");
    assert(evm_address[0] == '0');
    if solana_address.len() > 0 {
        assert(is_base58_char(solana_address[0]));
    }
}

} // verus!
