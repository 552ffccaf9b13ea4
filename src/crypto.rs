//! The calls into outside crates, and into std functions that vstd leaves
//! unspecified, that the library relies on; each carries the contract that
//! the source or documentation of the called function gives it. Results that
//! take pages to state (digests, curve points, ciphertexts) are named by spec
//! functions without a body.
use vstd::prelude::*;
use vstd::utf8::{decode_utf8, valid_utf8};

use crate::encoding::{
    be_value, hex_of, is_base58_char, is_lower_words, is_secp256k1_scalar, is_single_spaced,
    secp256k1_order, word_count_of,
};

verus! {

/// The English BIP39 phrase that encodes `entropy` with its checksum.
pub uninterp spec fn bip39_phrase(entropy: Seq<u8>) -> Seq<char>;

/// Whether `phrase` parses as an English BIP39 mnemonic with a correct checksum.
pub uninterp spec fn is_valid_mnemonic(phrase: Seq<char>) -> bool;

/// The 64-byte BIP39 seed of a valid phrase, with the empty passphrase.
pub uninterp spec fn bip39_seed(phrase: Seq<char>) -> Seq<u8>;

/// HMAC-SHA512 of `data` under `key`.
pub uninterp spec fn hmac_sha512_of(key: Seq<u8>, data: Seq<u8>) -> Seq<u8>;

/// The uncompressed SEC1 encoding of the secp256k1 public point of a secret scalar.
pub uninterp spec fn secp256k1_point_of(secret: Seq<u8>) -> Seq<u8>;

/// Keccak-256 (the original Keccak padding, not SHA3-256).
pub uninterp spec fn keccak256_of(data: Seq<u8>) -> Seq<u8>;

/// RIPEMD-160 of SHA-256.
pub uninterp spec fn hash160_of(data: Seq<u8>) -> Seq<u8>;

/// Base58 text of `data` followed by the first four bytes of its double SHA-256.
pub uninterp spec fn base58check_of(data: Seq<u8>) -> Seq<char>;

/// Base58 text of `data`.
pub uninterp spec fn base58_of(data: Seq<u8>) -> Seq<char>;

/// The Ed25519 public key of a 32-byte secret key.
pub uninterp spec fn ed25519_point_of(secret: Seq<u8>) -> Seq<u8>;

/// The SLIP-10 Ed25519 secret key derived from `seed` along `path`.
pub uninterp spec fn slip10_ed25519_key(seed: Seq<u8>, path: Seq<u32>) -> Seq<u8>;

/// PBKDF2 with HMAC-SHA256, 32 bytes of output.
pub uninterp spec fn pbkdf2_sha256_of(password: Seq<u8>, salt: Seq<u8>, rounds: u32) -> Seq<u8>;

/// AES-256-GCM encryption of `plain` without associated data: ciphertext followed by the tag.
pub uninterp spec fn aes_gcm_sealed(key: Seq<u8>, nonce: Seq<u8>, plain: Seq<u8>) -> Seq<u8>;

/// AES-256-GCM authenticated decryption of `sealed`; `None` where the tag does not match.
pub uninterp spec fn aes_gcm_opened(key: Seq<u8>, nonce: Seq<u8>, sealed: Seq<u8>) -> Option<
    Seq<u8>,
>;

/// Whether `text` parses as a Bitcoin address of any network.
pub uninterp spec fn is_bitcoin_address_text(text: Seq<char>) -> bool;

/// Relies on `rand::thread_rng` and `RngCore::fill_bytes`: `n` bytes from the
/// operating system's secure random source.
#[verifier::external_body]
pub(crate) fn random_bytes(n: usize) -> (r: Vec<u8>)
    ensures
        r@.len() == n,
{
    let mut v = vec![0u8; n];
    rand::RngCore::fill_bytes(&mut rand::thread_rng(), &mut v);
    v
}

/// Relies on `bip39::Mnemonic::from_entropy` and its `Display`: entropy of 16 to
/// 32 bytes in steps of 4 is accepted; the words (`len * 3 / 4` of them, from
/// the English list of small ASCII letters) are written with one space between
/// them; the phrase parses back with its checksum.
#[verifier::external_body]
pub(crate) fn mnemonic_from_entropy(entropy: &[u8]) -> (r: Option<String>)
    ensures
        r is Some <==> (entropy@.len() % 4 == 0 && 16 <= entropy@.len() <= 32),
        r matches Some(s) ==> s@ == bip39_phrase(entropy@) && is_valid_mnemonic(s@)
            && word_count_of(s@) == entropy@.len() * 3 / 4 && is_lower_words(s@)
            && is_single_spaced(s@),
{
    bip39::Mnemonic::from_entropy(entropy).ok().map(|m| m.to_string())
}

/// Relies on `bip39::Mnemonic::parse_in_normalized` (English) and
/// `Mnemonic::to_seed` with the empty passphrase: a seed of 64 bytes.
#[verifier::external_body]
pub(crate) fn mnemonic_seed(phrase: &str) -> (r: Option<Vec<u8>>)
    ensures
        r is Some <==> is_valid_mnemonic(phrase@),
        r matches Some(s) ==> s@ == bip39_seed(phrase@) && s@.len() == 64,
{
    bip39::Mnemonic::parse_in_normalized(bip39::Language::English, phrase).ok().map(
        |m| m.to_seed("").to_vec(),
    )
}

/// Relies on `bitcoin::hashes::hmac::Hmac<sha512::Hash>`: 64 bytes for any key and data.
#[verifier::external_body]
pub(crate) fn hmac_sha512(key: &[u8], data: &[u8]) -> (r: Vec<u8>)
    ensures
        r@ == hmac_sha512_of(key@, data@),
        r@.len() == 64,
{
    let mut engine = bitcoin::hashes::hmac::HmacEngine::<bitcoin::hashes::sha512::Hash>::new(key);
    bitcoin::hashes::HashEngine::input(&mut engine, data);
    let mac = <bitcoin::hashes::hmac::Hmac<bitcoin::hashes::sha512::Hash> as bitcoin::hashes::Hash>::from_engine(engine);
    <bitcoin::hashes::hmac::Hmac<bitcoin::hashes::sha512::Hash> as bitcoin::hashes::Hash>::to_byte_array(mac).to_vec()
}

/// Relies on `secp256k1::SecretKey::from_slice` (exactly the 32-byte strings in
/// `[1, n)` are accepted), `PublicKey::from_secret_key` and
/// `PublicKey::serialize_uncompressed` (65 bytes, tag `0x04` first).
#[verifier::external_body]
pub(crate) fn secp256k1_public_key(secret: &[u8]) -> (r: Option<Vec<u8>>)
    ensures
        r is Some <==> is_secp256k1_scalar(secret@),
        r matches Some(p) ==> p@ == secp256k1_point_of(secret@) && p@.len() == 65 && p@[0] == 4,
{
    let secp = secp256k1::Secp256k1::signing_only();
    secp256k1::SecretKey::from_slice(secret).ok().map(
        |sk| secp256k1::PublicKey::from_secret_key(&secp, &sk).serialize_uncompressed().to_vec(),
    )
}

/// Relies on `secp256k1::SecretKey::add_tweak`: the sum of two scalars modulo
/// the group order, refused where it is zero.
#[verifier::external_body]
pub(crate) fn secp256k1_add_scalars(a: &[u8], b: &[u8]) -> (r: Option<Vec<u8>>)
    requires
        is_secp256k1_scalar(a@),
        is_secp256k1_scalar(b@),
    ensures
        r is Some <==> (be_value(a@) + be_value(b@)) % secp256k1_order() != 0,
        r matches Some(s) ==> s@.len() == 32 && be_value(s@) == (be_value(a@) + be_value(b@))
            % secp256k1_order(),
{
    let sk = secp256k1::SecretKey::from_slice(a).ok()?;
    let tweak = secp256k1::Scalar::from(secp256k1::SecretKey::from_slice(b).ok()?);
    sk.add_tweak(&tweak).ok().map(|s| s.secret_bytes().to_vec())
}

/// Relies on `sha3::Keccak256`: a 32-byte digest.
#[verifier::external_body]
pub(crate) fn keccak256(data: &[u8]) -> (r: Vec<u8>)
    ensures
        r@ == keccak256_of(data@),
        r@.len() == 32,
{
    <sha3::Keccak256 as sha3::Digest>::digest(data).to_vec()
}

/// Relies on `bitcoin::hashes::hash160::Hash::hash`: a 20-byte digest.
#[verifier::external_body]
pub(crate) fn hash160(data: &[u8]) -> (r: Vec<u8>)
    ensures
        r@ == hash160_of(data@),
        r@.len() == 20,
{
    <bitcoin::hashes::hash160::Hash as bitcoin::hashes::Hash>::to_byte_array(<bitcoin::hashes::hash160::Hash as bitcoin::hashes::Hash>::hash(data)).to_vec()
}

/// Relies on `bitcoin::base58::encode_check`: text in the Base58 alphabet.
#[verifier::external_body]
pub(crate) fn base58check(data: &[u8]) -> (r: String)
    ensures
        r@ == base58check_of(data@),
        forall|i: int| 0 <= i < r@.len() ==> is_base58_char(#[trigger] r@[i]),
{
    bitcoin::base58::encode_check(data)
}

/// Relies on `bs58::encode(..).into_string()`: text in the Base58 alphabet.
#[verifier::external_body]
pub(crate) fn base58(data: &[u8]) -> (r: String)
    ensures
        r@ == base58_of(data@),
        forall|i: int| 0 <= i < r@.len() ==> is_base58_char(#[trigger] r@[i]),
{
    bs58::encode(data).into_string()
}

/// Relies on `bs58::decode(..).into_vec()`: decoding fails exactly on a
/// character outside the Base58 alphabet (non-ASCII ones included).
#[verifier::external_body]
pub(crate) fn base58_decodes(text: &str) -> (r: bool)
    ensures
        r == (forall|i: int| 0 <= i < text@.len() ==> is_base58_char(#[trigger] text@[i])),
{
    bs58::decode(text).into_vec().is_ok()
}

/// Relies on `bitcoin::Address::from_str`.
#[verifier::external_body]
pub(crate) fn parses_as_bitcoin_address(text: &str) -> (r: bool)
    ensures
        r == is_bitcoin_address_text(text@),
{
    <bitcoin::Address<bitcoin::address::NetworkUnchecked> as std::str::FromStr>::from_str(text).is_ok()
}

/// Relies on `ed25519_dalek::SecretKey::from_bytes` (exactly 32 bytes are
/// accepted) and `PublicKey::from(&SecretKey)` (32 bytes).
#[verifier::external_body]
pub(crate) fn ed25519_public_key(secret: &[u8]) -> (r: Option<Vec<u8>>)
    ensures
        r is Some <==> secret@.len() == 32,
        r matches Some(p) ==> p@ == ed25519_point_of(secret@) && p@.len() == 32,
{
    ed25519_dalek::SecretKey::from_bytes(secret).ok().map(
        |sk| ed25519_dalek::PublicKey::from(&sk).to_bytes().to_vec(),
    )
}

/// Relies on `slip10::derive_key_from_path` with `Curve::Ed25519`: it fails
/// exactly when the path holds an index below 2^31 (not hardened); the key has 32 bytes.
#[verifier::external_body]
pub(crate) fn slip10_ed25519(seed: &[u8], path: &[u32]) -> (r: Option<Vec<u8>>)
    ensures
        r is Some <==> (forall|i: int| 0 <= i < path@.len() ==> #[trigger] path@[i] >= 0x8000_0000),
        r matches Some(k) ==> k@ == slip10_ed25519_key(seed@, path@) && k@.len() == 32,
{
    let path = slip10::BIP32Path::from(path.to_vec());
    slip10::derive_key_from_path(seed, slip10::Curve::Ed25519, &path).ok().map(|k| k.key.to_vec())
}

/// Relies on `hex::encode`: two lowercase digits per byte.
#[verifier::external_body]
pub(crate) fn hex_encode(data: &[u8]) -> (r: String)
    ensures
        r@ == hex_of(data@),
{
    hex::encode(data)
}

/// Relies on `pbkdf2::pbkdf2` with `Hmac<Sha256>`: HMAC takes a key of any
/// length, so the call does not fail; 32 bytes are written.
#[verifier::external_body]
pub(crate) fn pbkdf2_sha256(password: &[u8], salt: &[u8], rounds: u32) -> (r: Option<Vec<u8>>)
    ensures
        r is Some,
        r matches Some(k) ==> k@ == pbkdf2_sha256_of(password@, salt@, rounds) && k@.len() == 32,
{
    let mut key = [0u8; 32];
    pbkdf2::pbkdf2::<pbkdf2::hmac::Hmac<sha2::Sha256>>(password, salt, rounds, &mut key).ok().map(
        |_| key.to_vec(),
    )
}

/// Relies on `aes_gcm::Aes256Gcm` and `Aead::encrypt`: a plaintext of at most
/// 2^36 bytes is accepted; the output is the ciphertext (as long as the
/// plaintext) followed by a 16-byte tag, and `Aead::decrypt` under the same key
/// and nonce recomputes that tag and gives the plaintext back.
#[verifier::external_body]
pub(crate) fn aes256gcm_seal(key: &[u8], nonce: &[u8], plain: &[u8]) -> (r: Option<Vec<u8>>)
    requires
        key@.len() == 32,
        nonce@.len() == 12,
    ensures
        r is Some <==> plain@.len() <= 0x10_0000_0000,
        r matches Some(c) ==> c@ == aes_gcm_sealed(key@, nonce@, plain@) && c@.len()
            == plain@.len() + 16 && aes_gcm_opened(key@, nonce@, c@) == Some(plain@),
{
    let cipher = <aes_gcm::Aes256Gcm as aes_gcm::KeyInit>::new(aes_gcm::Key::<aes_gcm::Aes256Gcm>::from_slice(key));
    aes_gcm::aead::Aead::encrypt(&cipher, aes_gcm::Nonce::from_slice(nonce), plain).ok()
}

/// Relies on `aes_gcm::Aes256Gcm` and `Aead::decrypt`: input shorter than the
/// 16-byte tag is refused.
#[verifier::external_body]
pub(crate) fn aes256gcm_open(key: &[u8], nonce: &[u8], sealed: &[u8]) -> (r: Option<Vec<u8>>)
    requires
        key@.len() == 32,
        nonce@.len() == 12,
    ensures
        r matches Some(p) ==> aes_gcm_opened(key@, nonce@, sealed@) == Some(p@),
        r is None ==> aes_gcm_opened(key@, nonce@, sealed@) is None,
        sealed@.len() < 16 ==> r is None,
{
    let cipher = <aes_gcm::Aes256Gcm as aes_gcm::KeyInit>::new(aes_gcm::Key::<aes_gcm::Aes256Gcm>::from_slice(key));
    aes_gcm::aead::Aead::decrypt(&cipher, aes_gcm::Nonce::from_slice(nonce), sealed).ok()
}

/// Relies on `String::push`: the character is appended.
#[verifier::external_body]
pub(crate) fn push_char(s: &mut String, c: char)
    ensures
        final(s)@ == old(s)@.push(c),
{
    s.push(c)
}

/// Relies on `String::from_utf8`: the bytes are accepted exactly when they are UTF-8.
#[verifier::external_body]
pub(crate) fn utf8_to_string(bytes: Vec<u8>) -> (r: Option<String>)
    ensures
        r is Some <==> valid_utf8(bytes@),
        r matches Some(s) ==> s@ == decode_utf8(bytes@),
{
    String::from_utf8(bytes).ok()
}

/// Relies on `chrono::Utc::now`: seconds since the Unix epoch and the
/// nanoseconds past them (above 10^9 only within a leap second).
#[verifier::external_body]
pub(crate) fn utc_now() -> (r: (i64, u32))
    ensures
        r.1 < 2_000_000_000,
{
    let now = chrono::Utc::now();
    (now.timestamp(), now.timestamp_subsec_nanos())
}

} // verus!
