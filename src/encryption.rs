//! Password-based authenticated encryption of byte payloads.
//!
//! A blob is laid out as `salt (32) || nonce (12) || ciphertext || tag (16)`;
//! the key is PBKDF2-HMAC-SHA256 of the password and the salt.
use vstd::prelude::*;
use vstd::utf8::{decode_utf8, encode_utf8, valid_utf8};

use crate::crypto::{
    aes256gcm_open, aes256gcm_seal, aes_gcm_opened, aes_gcm_sealed, pbkdf2_sha256,
    pbkdf2_sha256_of, random_bytes, utf8_to_string,
};
use crate::derivation::bytes_result_is;
use crate::encoding::{append_bytes, copy_range};
use crate::error::WalletError;

verus! {

/// Rounds of the password-based key derivation.
pub const PBKDF2_ROUNDS: u32 = 10_000;

/// Bytes of salt at the head of a blob.
pub const SALT_LEN: usize = 32;

/// Bytes of nonce after the salt.
pub const NONCE_LEN: usize = 12;

/// The shortest blob that is not malformed: salt and nonce.
pub const HEADER_LEN: usize = 44;

/// The largest payload that the cipher accepts.
pub open spec fn max_payload_len() -> nat {
    0x10_0000_0000
}

/// The key that a password and a salt give.
pub open spec fn key_of(password: Seq<u8>, salt: Seq<u8>) -> Seq<u8> {
    pbkdf2_sha256_of(password, salt, PBKDF2_ROUNDS)
}

/// `blob` seals `payload` under `password` with this salt and nonce: salt,
/// nonce, then the ciphertext with its 16-byte tag, which the cipher opens to
/// the payload again. The blob is 60 bytes longer than the payload.
pub open spec fn is_sealing(
    blob: Seq<u8>,
    payload: Seq<u8>,
    password: Seq<u8>,
    salt: Seq<u8>,
    nonce: Seq<u8>,
) -> bool {
    let key = key_of(password, salt);
    let body = aes_gcm_sealed(key, nonce, payload);
    &&& salt.len() == SALT_LEN
    &&& nonce.len() == NONCE_LEN
    &&& body.len() == payload.len() + 16
    &&& blob == salt + nonce + body
    &&& aes_gcm_opened(key, nonce, body) == Some(payload)
}

/// Decrypting a blob: `MalformedBlob` below the header length,
/// `DecryptionFailed` where the tag does not match.
pub open spec fn spec_decrypt(blob: Seq<u8>, password: Seq<u8>) -> Result<Seq<u8>, WalletError> {
    if blob.len() < HEADER_LEN {
        Err(WalletError::MalformedBlob)
    } else {
        let salt = blob.subrange(0, 32);
        let nonce = blob.subrange(32, 44);
        match aes_gcm_opened(key_of(password, salt), nonce, blob.subrange(44, blob.len() as int)) {
            Some(p) => Ok(p),
            None => Err(WalletError::DecryptionFailed),
        }
    }
}

/// Decrypting a blob to text: `InvalidUtf8` where the payload is not UTF-8.
pub open spec fn spec_decrypt_text(blob: Seq<u8>, password: Seq<u8>) -> Result<Seq<char>, WalletError> {
    match spec_decrypt(blob, password) {
        Ok(p) => if valid_utf8(p) {
            Ok(decode_utf8(p))
        } else {
            Err(WalletError::InvalidUtf8)
        },
        Err(e) => Err(e),
    }
}

/// Encrypts and decrypts payloads under a password.
pub struct FileEncryption;

impl FileEncryption {
    pub fn new() -> Self {
        FileEncryption
    }

    /// Seals `data` under `password` with the given salt and nonce.
    pub fn encrypt_with_salt_and_nonce(&self, data: &[u8], password: &str, salt: &[u8], nonce: &[u8]) -> (r: Result<Vec<u8>, WalletError>)
        requires
            salt@.len() == SALT_LEN,
            nonce@.len() == NONCE_LEN,
        ensures
            r is Ok <==> data@.len() <= max_payload_len(),
            r is Err ==> r == Err::<Vec<u8>, WalletError>(WalletError::PayloadTooLarge),
            r matches Ok(b) ==> is_sealing(b@, data@, encode_utf8(password@), salt@, nonce@),
            r matches Ok(b) ==> b@.len() == data@.len() + 60,
    {
        let key = match pbkdf2_sha256(password.as_bytes(), salt, PBKDF2_ROUNDS) {
            Some(k) => k,
            None => return Err(WalletError::PayloadTooLarge),
        };
        let body = match aes256gcm_seal(key.as_slice(), nonce, data) {
            Some(c) => c,
            None => return Err(WalletError::PayloadTooLarge),
        };
        let mut blob: Vec<u8> = Vec::new();
        append_bytes(&mut blob, salt);
        append_bytes(&mut blob, nonce);
        append_bytes(&mut blob, body.as_slice());
        proof {
            assert(blob@ =~= salt@ + nonce@ + body@);
        }
        Ok(blob)
    }

    /// Seals `data` under `password` with a fresh random salt and nonce.
    pub fn encrypt_with_password(&self, data: &[u8], password: &str) -> (r: Result<Vec<u8>, WalletError>)
        ensures
            r is Ok <==> data@.len() <= max_payload_len(),
            r is Err ==> r == Err::<Vec<u8>, WalletError>(WalletError::PayloadTooLarge),
            r matches Ok(b) ==> exists|salt: Seq<u8>, nonce: Seq<u8>|
                is_sealing(b@, data@, encode_utf8(password@), salt, nonce),
            r matches Ok(b) ==> b@.len() == data@.len() + 60,
    {
        let salt = random_bytes(SALT_LEN);
        let nonce = random_bytes(NONCE_LEN);
        self.encrypt_with_salt_and_nonce(data, password, salt.as_slice(), nonce.as_slice())
    }

    /// Opens a blob with `password`; a blob shorter than the header is refused
    /// before any key is derived.
    pub fn decrypt_with_password(&self, encrypted_data: &[u8], password: &str) -> (r: Result<Vec<u8>, WalletError>)
        ensures
            bytes_result_is(r, spec_decrypt(encrypted_data@, encode_utf8(password@))),
            HEADER_LEN <= encrypted_data@.len() < HEADER_LEN + 16 ==> r == Err::<Vec<u8>, WalletError>(
                WalletError::DecryptionFailed,
            ),
    {
        if encrypted_data.len() < HEADER_LEN {
            return Err(WalletError::MalformedBlob);
        }
        let salt = copy_range(encrypted_data, 0, SALT_LEN);
        let nonce = copy_range(encrypted_data, SALT_LEN, HEADER_LEN);
        let body = copy_range(encrypted_data, HEADER_LEN, encrypted_data.len());
        let key = match pbkdf2_sha256(password.as_bytes(), salt.as_slice(), PBKDF2_ROUNDS) {
            Some(k) => k,
            None => return Err(WalletError::DecryptionFailed),
        };
        match aes256gcm_open(key.as_slice(), nonce.as_slice(), body.as_slice()) {
            Some(p) => Ok(p),
            None => Err(WalletError::DecryptionFailed),
        }
    }

    /// Seals the UTF-8 bytes of a serialized wallet.
    pub fn encrypt_wallet_file(&self, wallet_data: &str, password: &str) -> (r: Result<Vec<u8>, WalletError>)
        ensures
            r is Ok <==> encode_utf8(wallet_data@).len() <= max_payload_len(),
            r is Err ==> r == Err::<Vec<u8>, WalletError>(WalletError::PayloadTooLarge),
            r matches Ok(b) ==> exists|salt: Seq<u8>, nonce: Seq<u8>|
                is_sealing(b@, encode_utf8(wallet_data@), encode_utf8(password@), salt, nonce),
            r matches Ok(b) ==> b@.len() == encode_utf8(wallet_data@).len() + 60,
    {
        self.encrypt_with_password(wallet_data.as_bytes(), password)
    }

    /// Opens a blob and reads its payload as UTF-8 text.
    pub fn decrypt_wallet_file(&self, encrypted_data: &[u8], password: &str) -> (r: Result<String, WalletError>)
        ensures
            match r {
                Ok(s) => spec_decrypt_text(encrypted_data@, encode_utf8(password@)) == Ok::<Seq<char>, WalletError>(s@),
                Err(e) => spec_decrypt_text(encrypted_data@, encode_utf8(password@)) == Err::<Seq<char>, WalletError>(e),
            },
    {
        let decrypted = match self.decrypt_with_password(encrypted_data, password) {
            Ok(p) => p,
            Err(e) => return Err(e),
        };
        match utf8_to_string(decrypted) {
            Some(s) => Ok(s),
            None => Err(WalletError::InvalidUtf8),
        }
    }
}

/// Decrypting a sealed blob with the same password gives the payload back.
pub proof fn law_decrypt_undoes_encrypt(
    blob: Seq<u8>,
    payload: Seq<u8>,
    password: Seq<u8>,
    salt: Seq<u8>,
    nonce: Seq<u8>,
)
    requires
        is_sealing(blob, payload, password, salt, nonce),
    ensures
        spec_decrypt(blob, password) == Ok::<Seq<u8>, WalletError>(payload),
{
    let body = aes_gcm_sealed(key_of(password, salt), nonce, payload);
    assert(blob.subrange(0, 32) =~= salt);
    assert(blob.subrange(32, 44) =~= nonce);
    assert(blob.subrange(44, blob.len() as int) =~= body);
}

/// Decrypting a sealed wallet file with the same password gives the text back.
pub proof fn law_wallet_file_round_trip(
    blob: Seq<u8>,
    text: Seq<char>,
    password: Seq<u8>,
    salt: Seq<u8>,
    nonce: Seq<u8>,
)
    requires
        is_sealing(blob, encode_utf8(text), password, salt, nonce),
    ensures
        spec_decrypt_text(blob, password) == Ok::<Seq<char>, WalletError>(text),
{
    law_decrypt_undoes_encrypt(blob, encode_utf8(text), password, salt, nonce);
    vstd::utf8::encode_utf8_valid_utf8(text);
    vstd::utf8::encode_utf8_decode_utf8(text);
}

/// A blob shorter than the salt and nonce is malformed, whatever the password.
pub proof fn law_short_blob_is_malformed(blob: Seq<u8>, password: Seq<u8>)
    requires
        blob.len() < HEADER_LEN,
    ensures
        spec_decrypt(blob, password) == Err::<Seq<u8>, WalletError>(WalletError::MalformedBlob),
{
}

/// Two sealings that differ in salt or nonce are different blobs.
pub proof fn law_fresh_salt_or_nonce_gives_new_blob(
    first: Seq<u8>,
    second: Seq<u8>,
    payload: Seq<u8>,
    password: Seq<u8>,
    salt1: Seq<u8>,
    nonce1: Seq<u8>,
    salt2: Seq<u8>,
    nonce2: Seq<u8>,
)
    requires
        is_sealing(first, payload, password, salt1, nonce1),
        is_sealing(second, payload, password, salt2, nonce2),
        salt1 != salt2 || nonce1 != nonce2,
    ensures
        first != second,
{
    if first == second {
        assert(first.subrange(0, 32) =~= salt1);
        assert(second.subrange(0, 32) =~= salt2);
        assert(first.subrange(32, 44) =~= nonce1);
        assert(second.subrange(32, 44) =~= nonce2);
    }
}

} // verus!
