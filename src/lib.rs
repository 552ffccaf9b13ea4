//! Key material and address derivation for several blockchain networks,
//! with password-based encryption of exported wallet records.
//!
//! The pipeline runs entropy or phrase, then private key, then address, then
//! (optionally) ciphertext: `mnemonic` provides phrases, `derivation` turns a
//! phrase into a BIP32 (secp256k1) or SLIP-10 (Ed25519) key, `address`
//! encodes keys per chain family, `wallet` builds records, and `encryption`
//! seals byte payloads under a password. Functions that draw randomness or
//! read the clock have siblings that take those values as arguments.

pub mod error;
pub mod encoding;
pub mod crypto;
pub mod derivation;
pub mod chain;
pub mod mnemonic;
pub mod address;
pub mod wallet;
pub mod encryption;
pub mod display;
pub mod gui;
