//! Wallet records and the generator that builds them.
use vstd::prelude::*;

use crate::address::spec_address;
use crate::chain::{ChainFamily, WalletType};
use crate::crypto::{bip39_phrase, hex_encode, is_valid_mnemonic, random_bytes, utc_now};
use crate::derivation::{Curve, PrivateKey};
use crate::encoding::{
    copy_range, hex_of, is_lower_words, is_single_spaced, lemma_lower_words_fixed, word_count_of,
};
use crate::error::WalletError;
use crate::mnemonic::{
    entropy_len_for, is_supported_word_count, spec_ed25519_key, spec_secp256k1_key, spec_validate,
    Bip39Generator,
};

verus! {

/// Builds wallet records from fresh randomness or from a phrase.
pub struct WalletGenerator {
    pub bip39_gen: Bip39Generator,
}

impl WalletGenerator {
    pub fn new() -> Self {
        WalletGenerator { bip39_gen: Bip39Generator::new() }
    }
}

/// A point in time: seconds since the Unix epoch and nanoseconds past them.
#[derive(Debug, Clone, Copy, PartialEq, Eq, Structural)]
pub struct Timestamp {
    pub seconds: i64,
    pub nanos: u32,
}

impl Timestamp {
    /// The nanoseconds stay below two seconds (a leap second may reach past one).
    pub open spec fn wf(self) -> bool {
        self.nanos < 2_000_000_000
    }

    /// The current time.
    pub fn now() -> (r: Timestamp)
        ensures
            r.wf(),
    {
        let (seconds, nanos) = utc_now();
        Timestamp { seconds, nanos }
    }
}

/// The fixed donation field of every record.
pub open spec fn donation_text() -> Seq<char> {
    "Solana: 5Bkgy7Xd6zj5K6HkCERoNNseCGx7WCX3LxrxmL8KgCk4"@
}

/// The text of an optional string.
pub open spec fn text_option(o: Option<String>) -> Option<Seq<char>> {
    match o {
        Some(s) => Some(s@),
        None => None,
    }
}

/// One generated or imported wallet.
#[derive(Debug)]
pub struct Wallet {
    pub wallet_type: String,
    pub address: String,
    pub private_key: String,
    pub seed_phrase: Option<String>,
    pub created_at: Timestamp,
    pub network: String,
    pub support_my_work: String,
}

impl Wallet {
    /// The record holds these values, with the chain's name and network label
    /// and the donation field.
    pub open spec fn describes(
        self,
        t: WalletType,
        address: Seq<char>,
        key_hex: Seq<char>,
        phrase: Option<Seq<char>>,
    ) -> bool {
        &&& self.wallet_type@ == t.spec_name()
        &&& self.address@ == address
        &&& self.private_key@ == key_hex
        &&& text_option(self.seed_phrase) == phrase
        &&& self.network@ == t.spec_network()
        &&& self.support_my_work@ == donation_text()
    }

    /// A record created at the given time.
    pub fn new_at(
        wallet_type: WalletType,
        address: String,
        private_key: String,
        seed_phrase: Option<String>,
        created_at: Timestamp,
    ) -> (r: Self)
        ensures
            r.describes(wallet_type, address@, private_key@, text_option(seed_phrase)),
            r.created_at == created_at,
    {
        Wallet {
            wallet_type: wallet_type.to_string(),
            address,
            private_key,
            seed_phrase,
            created_at,
            network: wallet_type.network_label(),
            support_my_work: "Solana: 5Bkgy7Xd6zj5K6HkCERoNNseCGx7WCX3LxrxmL8KgCk4".to_owned(),
        }
    }

    /// A record created now.
    pub fn new(
        wallet_type: WalletType,
        address: String,
        private_key: String,
        seed_phrase: Option<String>,
    ) -> (r: Self)
        ensures
            r.describes(wallet_type, address@, private_key@, text_option(seed_phrase)),
            r.created_at.wf(),
    {
        Self::new_at(wallet_type, address, private_key, seed_phrase, Timestamp::now())
    }
}

/// The curve of a chain's keys.
pub open spec fn curve_of(t: WalletType) -> Curve {
    t.spec_family().spec_curve()
}

/// The address and the hex private key that a secret gives on a chain, or the error.
pub open spec fn spec_record(t: WalletType, curve: Curve, secret: Seq<u8>) -> Result<(Seq<char>, Seq<char>), WalletError> {
    match spec_address(t, curve, secret) {
        Ok(a) => Ok((a, hex_of(secret))),
        Err(e) => Err(e),
    }
}

/// The key that a phrase derives for a chain.
pub open spec fn spec_key_for(t: WalletType, phrase: Seq<char>) -> Result<Seq<u8>, WalletError> {
    if t.spec_family() == ChainFamily::Solana {
        spec_ed25519_key(phrase)
    } else {
        spec_secp256k1_key(phrase)
    }
}

/// The address and hex key that a phrase derives for a chain.
pub open spec fn spec_phrase_record(t: WalletType, phrase: Seq<char>) -> Result<(Seq<char>, Seq<char>), WalletError> {
    match spec_key_for(t, phrase) {
        Ok(k) => spec_record(t, curve_of(t), k),
        Err(e) => Err(e),
    }
}

/// Importing a phrase: refused where it is not a valid mnemonic.
pub open spec fn spec_import(t: WalletType, phrase: Seq<char>) -> Result<(Seq<char>, Seq<char>), WalletError> {
    if !spec_validate(phrase) {
        Err(WalletError::InvalidMnemonic)
    } else {
        spec_phrase_record(t, phrase)
    }
}

/// The phrase of `entropy` is a valid mnemonic of `len * 3 / 4` words: small
/// letters, one space between words.
pub open spec fn is_entropy_phrase(entropy: Seq<u8>) -> bool {
    let p = bip39_phrase(entropy);
    &&& is_valid_mnemonic(p)
    &&& word_count_of(p) == entropy.len() * 3 / 4
    &&& is_lower_words(p)
    &&& is_single_spaced(p)
}

/// `r` is the record for chain `t` that `expected` describes, with `phrase`, or its error.
pub open spec fn is_record_outcome(
    r: Result<Wallet, WalletError>,
    t: WalletType,
    expected: Result<(Seq<char>, Seq<char>), WalletError>,
    phrase: Option<Seq<char>>,
) -> bool {
    match r {
        Ok(w) => expected == Ok::<(Seq<char>, Seq<char>), WalletError>((w.address@, w.private_key@))
            && w.describes(t, w.address@, w.private_key@, phrase) && w.created_at.wf(),
        Err(e) => expected == Err::<(Seq<char>, Seq<char>), WalletError>(e),
    }
}

impl WalletGenerator {
    /// 32 bytes from the secure random source.
    pub fn generate_random_private_key(&self) -> (r: Result<Vec<u8>, WalletError>)
        ensures
            r matches Ok(k) && k@.len() == 32,
    {
        Ok(random_bytes(32))
    }

    /// The record of a key on the chain of its curve.
    fn record_for_key(
        &self,
        t: WalletType,
        key: PrivateKey,
        phrase: Option<String>,
        created_at: Timestamp,
    ) -> (r: Result<Wallet, WalletError>)
        requires
            created_at.wf(),
        ensures
            is_record_outcome(r, t, spec_record(t, key.curve, key.bytes@), text_option(phrase)),
            r matches Ok(w) ==> w.created_at == created_at,
    {
        let address = match self.generate_address(&key, &t) {
            Ok(a) => a,
            Err(e) => return Err(e),
        };
        let key_hex = hex_encode(key.bytes.as_slice());
        Ok(Wallet::new_at(t, address, key_hex, phrase, created_at))
    }

    /// The record that a phrase gives on a chain, without checking the phrase first.
    fn record_for_phrase(&self, t: WalletType, phrase: String, created_at: Timestamp) -> (r: Result<Wallet, WalletError>)
        requires
            created_at.wf(),
        ensures
            is_record_outcome(r, t, spec_phrase_record(t, phrase@), Some(phrase@)),
            r matches Ok(w) ==> w.created_at == created_at,
            t.spec_family() == ChainFamily::Solana && spec_validate(phrase@) ==> r is Ok,
    {
        let family = t.family();
        let derived = match family {
            ChainFamily::Solana => self.bip39_gen.phrase_to_private_key_solana(phrase.as_str()),
            _ => self.bip39_gen.phrase_to_private_key(phrase.as_str()),
        };
        let bytes = match derived {
            Ok(k) => k,
            Err(e) => return Err(e),
        };
        let key = PrivateKey { curve: family.curve(), bytes };
        self.record_for_key(t, key, Some(phrase), created_at)
    }

    /// The record of a phrase drawn from the given entropy (16 or 32 bytes).
    pub fn wallet_from_entropy(&self, t: WalletType, entropy: &[u8], created_at: Timestamp) -> (r: Result<Wallet, WalletError>)
        requires
            created_at.wf(),
        ensures
            !(entropy@.len() == 16 || entropy@.len() == 32) ==> r == Err::<Wallet, WalletError>(
                WalletError::InvalidWordCount,
            ),
            (entropy@.len() == 16 || entropy@.len() == 32) ==> is_record_outcome(
                r,
                t,
                spec_phrase_record(t, bip39_phrase(entropy@)),
                Some(bip39_phrase(entropy@)),
            ),
            (entropy@.len() == 16 || entropy@.len() == 32) ==> is_entropy_phrase(entropy@),
            (entropy@.len() == 16 || entropy@.len() == 32) && t.spec_family() == ChainFamily::Solana
                ==> r is Ok,
            r matches Ok(w) ==> w.created_at == created_at,
    {
        let phrase = match self.bip39_gen.phrase_from_entropy(entropy) {
            Ok(p) => p,
            Err(e) => return Err(e),
        };
        proof {
            lemma_lower_words_fixed(phrase@);
        }
        self.record_for_phrase(t, phrase, created_at)
    }

    /// The record of a key given as raw bytes, read under the chain's curve; no phrase.
    pub fn wallet_from_random_key(&self, t: WalletType, key_bytes: &[u8], created_at: Timestamp) -> (r: Result<Wallet, WalletError>)
        requires
            created_at.wf(),
        ensures
            is_record_outcome(r, t, spec_record(t, curve_of(t), key_bytes@), None),
            r matches Ok(w) ==> w.created_at == created_at,
    {
        let key = PrivateKey { curve: t.family().curve(), bytes: copy_range(key_bytes, 0, key_bytes.len()) };
        proof {
            assert(key.bytes@ =~= key_bytes@);
        }
        self.record_for_key(t, key, None, created_at)
    }

    /// A fresh wallet: from a new phrase of `word_count` words, or from 32 random
    /// bytes with no phrase.
    pub fn generate_wallet(&self, wallet_type: WalletType, generate_seed_phrase: bool, word_count: u8) -> (r: Result<Wallet, WalletError>)
        ensures
            generate_seed_phrase && !is_supported_word_count(word_count as int) ==> r
                == Err::<Wallet, WalletError>(WalletError::InvalidWordCount),
            generate_seed_phrase && is_supported_word_count(word_count as int) ==> exists|e: Seq<u8>|
                e.len() == entropy_len_for(word_count) && is_entropy_phrase(e) && is_record_outcome(
                    r,
                    wallet_type,
                    spec_phrase_record(wallet_type, bip39_phrase(e)),
                    Some(bip39_phrase(e)),
                ),
            !generate_seed_phrase ==> exists|k: Seq<u8>|
                k.len() == 32 && is_record_outcome(r, wallet_type, spec_record(wallet_type, curve_of(wallet_type), k), None),
            wallet_type.spec_family() == ChainFamily::Solana && (!generate_seed_phrase
                || is_supported_word_count(word_count as int)) ==> r is Ok,
    {
        if generate_seed_phrase {
            if word_count != 12 && word_count != 24 {
                return Err(WalletError::InvalidWordCount);
            }
            let entropy = random_bytes((word_count as usize) / 3 * 4);
            let created_at = Timestamp::now();
            let phrase = match self.bip39_gen.phrase_from_entropy(entropy.as_slice()) {
                Ok(p) => p,
                Err(e) => return Err(e),
            };
            proof {
                lemma_lower_words_fixed(phrase@);
            }
            let r = self.record_for_phrase(wallet_type, phrase, created_at);
            proof {
                assert(entropy@.len() == entropy_len_for(word_count));
            }
            r
        } else {
            let key = random_bytes(32);
            self.wallet_from_random_key(wallet_type, key.as_slice(), Timestamp::now())
        }
    }

    /// The record of a phrase imported on a chain, created at the given time.
    pub fn import_from_phrase_at(&self, phrase: &str, wallet_type: WalletType, created_at: Timestamp) -> (r: Result<Wallet, WalletError>)
        requires
            created_at.wf(),
        ensures
            is_record_outcome(r, wallet_type, spec_import(wallet_type, phrase@), Some(phrase@)),
            r matches Ok(w) ==> w.created_at == created_at,
    {
        let valid = match self.bip39_gen.validate_phrase(phrase) {
            Ok(v) => v,
            Err(e) => return Err(e),
        };
        if !valid {
            return Err(WalletError::InvalidMnemonic);
        }
        self.record_for_phrase(wallet_type, phrase.to_owned(), created_at)
    }

    /// The record of a phrase imported on a chain, created now.
    pub fn import_from_phrase(&self, phrase: &str, wallet_type: WalletType) -> (r: Result<Wallet, WalletError>)
        ensures
            is_record_outcome(r, wallet_type, spec_import(wallet_type, phrase@), Some(phrase@)),
    {
        self.import_from_phrase_at(phrase, wallet_type, Timestamp::now())
    }

    /// A fresh wallet, with a 12-word phrase where asked, for a chain given by name.
    pub fn generate_wallet_by_type(&self, chain: &str, include_seed_phrase: bool) -> (r: Result<Wallet, WalletError>)
        ensures
            WalletType::spec_parse(chain@) is Err ==> r == Err::<Wallet, WalletError>(WalletError::UnsupportedChain),
            WalletType::spec_parse(chain@) is Ok ==> r != Err::<Wallet, WalletError>(WalletError::UnsupportedChain),
            WalletType::spec_parse(chain@) matches Ok(t) ==> (include_seed_phrase ==> exists|e: Seq<u8>|
                e.len() == 16 && is_entropy_phrase(e) && is_record_outcome(
                    r,
                    t,
                    spec_phrase_record(t, bip39_phrase(e)),
                    Some(bip39_phrase(e)),
                )),
            WalletType::spec_parse(chain@) matches Ok(t) ==> (!include_seed_phrase ==> exists|k: Seq<u8>|
                k.len() == 32 && is_record_outcome(r, t, spec_record(t, curve_of(t), k), None)),
            WalletType::spec_parse(chain@) matches Ok(t) ==> (t.spec_family() == ChainFamily::Solana ==> r is Ok),
            r matches Ok(w) ==> w.wallet_type@ == chain@ && (w.seed_phrase is Some) == include_seed_phrase,
    {
        let wallet_type = match WalletType::parse(chain) {
            Ok(t) => t,
            Err(e) => return Err(e),
        };
        self.generate_wallet(wallet_type, include_seed_phrase, 12)
    }
}

/// Importing the same phrase for the same chain twice gives the same outcome:
/// the same address and private key, or the same error.
pub proof fn law_import_is_deterministic(
    t: WalletType,
    phrase: Seq<char>,
    first: Result<Wallet, WalletError>,
    second: Result<Wallet, WalletError>,
)
    requires
        is_record_outcome(first, t, spec_import(t, phrase), Some(phrase)),
        is_record_outcome(second, t, spec_import(t, phrase), Some(phrase)),
    ensures
        first is Ok <==> second is Ok,
        first matches Ok(a) ==> second matches Ok(b) && a.address@ == b.address@ && a.private_key@
            == b.private_key@,
        first matches Err(e) ==> second == Err::<Wallet, WalletError>(e),
{
}

} // verus!
