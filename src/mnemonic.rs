//! BIP39 mnemonic phrases: generation from entropy, validation, and the keys they derive.
use vstd::prelude::*;

use crate::crypto::{bip39_phrase, is_valid_mnemonic, mnemonic_from_entropy, mnemonic_seed, random_bytes};
use crate::derivation::{
    bytes_result_is, ed25519_key_from_phrase, ed25519_key_of_phrase, secp256k1_key_from_phrase,
    secp256k1_key_of_phrase,
};
use crate::encoding::{
    ascii_lower, count_words, is_lower_words, is_secp256k1_scalar, is_single_spaced,
    lemma_lower_words_fixed, to_ascii_lower, word_count_of,
};
use crate::error::WalletError;

verus! {

/// The entry point for mnemonic phrases.
pub struct Bip39Generator;

/// Whether `word_count` is a supported phrase length.
pub open spec fn is_supported_word_count(word_count: int) -> bool {
    word_count == 12 || word_count == 24
}

/// The entropy, in bytes, of a phrase of `word_count` words.
pub open spec fn entropy_len_for(word_count: u8) -> nat {
    word_count as nat / 3 * 4
}

/// `p` is a phrase of `word_count` words drawn from some entropy of the matching size.
pub open spec fn is_generated_phrase(word_count: u8, p: Seq<char>) -> bool {
    &&& exists|e: Seq<u8>| e.len() == entropy_len_for(word_count) && p == bip39_phrase(e)
    &&& is_valid_mnemonic(p)
    &&& word_count_of(p) == word_count
    &&& is_lower_words(p)
    &&& is_single_spaced(p)
}

/// Whether a phrase has 12 or 24 words and, with its ASCII letters made small,
/// is a valid English mnemonic with its checksum.
pub open spec fn spec_validate(phrase: Seq<char>) -> bool {
    is_supported_word_count(word_count_of(phrase) as int) && is_valid_mnemonic(ascii_lower(phrase))
}

/// The secp256k1 key of a phrase of 12 or 24 words, its letters made small.
pub open spec fn spec_secp256k1_key(phrase: Seq<char>) -> Result<Seq<u8>, WalletError> {
    if !is_supported_word_count(word_count_of(phrase) as int) {
        Err(WalletError::DerivationError)
    } else {
        secp256k1_key_of_phrase(ascii_lower(phrase))
    }
}

/// The Ed25519 key of a phrase of 12 or 24 words, its letters made small.
pub open spec fn spec_ed25519_key(phrase: Seq<char>) -> Result<Seq<u8>, WalletError> {
    if !is_supported_word_count(word_count_of(phrase) as int) {
        Err(WalletError::DerivationError)
    } else {
        ed25519_key_of_phrase(ascii_lower(phrase))
    }
}

impl Bip39Generator {
    pub fn new() -> Self {
        Bip39Generator
    }

    /// The word count of a phrase, accepted only where it is 12 or 24.
    pub open spec fn spec_word_count(phrase: Seq<char>) -> Result<u8, WalletError> {
        if is_supported_word_count(word_count_of(phrase) as int) {
            Ok(word_count_of(phrase) as u8)
        } else {
            Err(WalletError::InvalidWordCount)
        }
    }

    /// The phrase that encodes 16 or 32 bytes of entropy.
    pub fn phrase_from_entropy(&self, entropy: &[u8]) -> (r: Result<String, WalletError>)
        ensures
            r is Ok <==> (entropy@.len() == 16 || entropy@.len() == 32),
            r is Err ==> r == Err::<String, WalletError>(WalletError::InvalidWordCount),
            r matches Ok(p) ==> p@ == bip39_phrase(entropy@) && is_valid_mnemonic(p@)
                && word_count_of(p@) == entropy@.len() * 3 / 4 && is_lower_words(p@)
                && is_single_spaced(p@),
    {
        if entropy.len() != 16 && entropy.len() != 32 {
            return Err(WalletError::InvalidWordCount);
        }
        match mnemonic_from_entropy(entropy) {
            Some(p) => Ok(p),
            None => Err(WalletError::InvalidWordCount),
        }
    }

    /// A fresh phrase of 12 or 24 words from the secure random source.
    pub fn generate_phrase(&self, word_count: u8) -> (r: Result<String, WalletError>)
        ensures
            r is Ok <==> is_supported_word_count(word_count as int),
            r is Err ==> r == Err::<String, WalletError>(WalletError::InvalidWordCount),
            r matches Ok(p) ==> is_generated_phrase(word_count, p@),
    {
        if word_count != 12 && word_count != 24 {
            return Err(WalletError::InvalidWordCount);
        }
        let entropy = random_bytes((word_count as usize) / 3 * 4);
        let r = self.phrase_from_entropy(entropy.as_slice());
        proof {
            assert(entropy@.len() == entropy_len_for(word_count));
        }
        r
    }

    /// The secp256k1 key of a phrase of 12 or 24 words (its letters made small)
    /// along `m/44'/60'/0'/0/0`.
    pub fn phrase_to_private_key(&self, phrase: &str) -> (r: Result<Vec<u8>, WalletError>)
        ensures
            bytes_result_is(r, spec_secp256k1_key(phrase@)),
            r matches Ok(k) ==> is_secp256k1_scalar(k@),
    {
        let words = count_words(phrase);
        if words != 12 && words != 24 {
            return Err(WalletError::DerivationError);
        }
        let normalized = to_ascii_lower(phrase);
        secp256k1_key_from_phrase(normalized.as_str())
    }

    /// The Ed25519 key of a phrase of 12 or 24 words (its letters made small)
    /// along `m/44'/501'/0'/0'`.
    pub fn phrase_to_private_key_solana(&self, phrase: &str) -> (r: Result<Vec<u8>, WalletError>)
        ensures
            bytes_result_is(r, spec_ed25519_key(phrase@)),
            r matches Ok(k) ==> k@.len() == 32,
    {
        let words = count_words(phrase);
        if words != 12 && words != 24 {
            return Err(WalletError::DerivationError);
        }
        let normalized = to_ascii_lower(phrase);
        ed25519_key_from_phrase(normalized.as_str())
    }

    /// Whether the phrase has 12 or 24 words and, its letters made small, is a
    /// valid English mnemonic with its checksum; words may be separated by any
    /// whitespace.
    pub fn validate_phrase(&self, phrase: &str) -> (r: Result<bool, WalletError>)
        ensures
            r == Ok::<bool, WalletError>(spec_validate(phrase@)),
    {
        let words = count_words(phrase);
        if words != 12 && words != 24 {
            return Ok(false);
        }
        let normalized = to_ascii_lower(phrase);
        Ok(mnemonic_seed(normalized.as_str()).is_some())
    }

    /// The number of whitespace-separated words, where it is 12 or 24.
    pub fn get_word_count(&self, phrase: &str) -> (r: Result<u8, WalletError>)
        ensures
            r == Self::spec_word_count(phrase@),
    {
        let n = count_words(phrase);
        if n == 12 || n == 24 {
            Ok(n as u8)
        } else {
            Err(WalletError::InvalidWordCount)
        }
    }
}

/// A generated phrase has the word count it was asked for and is a valid mnemonic.
pub proof fn law_generated_phrase_is_valid(word_count: u8, p: Seq<char>)
    requires
        is_supported_word_count(word_count as int),
        is_generated_phrase(word_count, p),
    ensures
        Bip39Generator::spec_word_count(p) == Ok::<u8, WalletError>(word_count),
        spec_validate(p),
{
    lemma_lower_words_fixed(p);
}

} // verus!
