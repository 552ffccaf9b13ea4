use rust_wallet_gen::chain::WalletType;
use rust_wallet_gen::derivation::{Curve, PrivateKey};
use rust_wallet_gen::error::WalletError;
use rust_wallet_gen::mnemonic::Bip39Generator;
use rust_wallet_gen::wallet::WalletGenerator;

const ABANDON: &str = "abandon abandon abandon abandon abandon abandon abandon abandon abandon abandon abandon about";

fn unhex(s: &str) -> Vec<u8> {
    (0..s.len()).step_by(2).map(|i| u8::from_str_radix(&s[i..i + 2], 16).unwrap()).collect()
}

fn key_one() -> Vec<u8> {
    let mut k = vec![0u8; 32];
    k[31] = 1;
    k
}

#[test]
fn generated_phrases_have_requested_word_count_and_validate() {
    let g = Bip39Generator::new();
    for n in [12u8, 24u8] {
        let p = g.generate_phrase(n).unwrap();
        assert_eq!(g.get_word_count(&p), Ok(n));
        assert_eq!(g.validate_phrase(&p), Ok(true));
    }
}

#[test]
fn unsupported_word_counts_are_refused() {
    let g = Bip39Generator::new();
    for n in [0u8, 11, 15, 18, 21, 25, 255] {
        assert_eq!(g.generate_phrase(n), Err(WalletError::InvalidWordCount));
    }
}

#[test]
fn zero_entropy_gives_the_abandon_phrase() {
    let g = Bip39Generator::new();
    assert_eq!(g.phrase_from_entropy(&[0u8; 16]).unwrap(), ABANDON);
    assert_eq!(g.phrase_from_entropy(&[0u8; 20]), Err(WalletError::InvalidWordCount));
    assert_eq!(g.phrase_from_entropy(&[]), Err(WalletError::InvalidWordCount));
}

#[test]
fn word_count_accepts_only_12_or_24() {
    let g = Bip39Generator::new();
    assert_eq!(g.get_word_count(ABANDON), Ok(12));
    assert_eq!(g.get_word_count("  a\tb\nc d e f g h i j k l  "), Ok(12));
    assert_eq!(g.get_word_count("a b c"), Err(WalletError::InvalidWordCount));
    assert_eq!(g.get_word_count(""), Err(WalletError::InvalidWordCount));
    let long = vec!["w"; 268].join(" ");
    assert_eq!(g.get_word_count(&long), Err(WalletError::InvalidWordCount));
}

#[test]
fn validate_detects_bad_checksum_and_unknown_words() {
    let g = Bip39Generator::new();
    assert_eq!(g.validate_phrase(ABANDON), Ok(true));
    assert_eq!(g.validate_phrase(&vec!["abandon"; 12].join(" ")), Ok(false));
    assert_eq!(g.validate_phrase("hello world"), Ok(false));
}

#[test]
fn abandon_phrase_derives_the_known_evm_key_and_address() {
    let g = Bip39Generator::new();
    let key = g.phrase_to_private_key(ABANDON).unwrap();
    assert_eq!(key, unhex("1ab42cc412b618bdea3a599e3c9bae199ebf030895b039e9db1e30dafb12b727"));
    let w = WalletGenerator::new();
    assert_eq!(w.generate_eth_address(&key).unwrap(), "0x9858effd232b4033e47d90003d41ec34ecaeda94");
}

#[test]
fn abandon_phrase_derives_the_known_solana_key() {
    let g = Bip39Generator::new();
    let key = g.phrase_to_private_key_solana(ABANDON).unwrap();
    assert_eq!(key, unhex("37df573b3ac4ad5b522e064e25b63ea16bcbe79d449e81a0268d1047948bb445"));
    let w = WalletGenerator::new();
    assert_eq!(w.generate_sol_address(&key).unwrap(), "HAgk14JpMQLgt6rVgv7cBQFJWFto5Dqxi472uT3DKpqk");
}

#[test]
fn invalid_phrase_fails_derivation() {
    let g = Bip39Generator::new();
    assert_eq!(g.phrase_to_private_key("not a phrase"), Err(WalletError::DerivationError));
    assert_eq!(g.phrase_to_private_key_solana("not a phrase"), Err(WalletError::DerivationError));
}

#[test]
fn zero_ed25519_seed_gives_fixed_solana_address() {
    let w = WalletGenerator::new();
    assert_eq!(w.generate_sol_address(&[0u8; 32]).unwrap(), "4zvwRjXUKGfvwnParsHAS3HuSVzV5cA4McphgmoCtajS");
    let key = PrivateKey { curve: Curve::Ed25519, bytes: vec![0u8; 32] };
    assert_eq!(w.generate_address(&key, &WalletType::Sol).unwrap(), "4zvwRjXUKGfvwnParsHAS3HuSVzV5cA4McphgmoCtajS");
}

#[test]
fn secret_one_gives_known_addresses() {
    let w = WalletGenerator::new();
    assert_eq!(w.generate_eth_address(&key_one()).unwrap(), "0x7e5f4552091a69125d5dfcb7b8c2659029395bdf");
    assert_eq!(w.generate_polygon_address(&key_one()).unwrap(), "0x7e5f4552091a69125d5dfcb7b8c2659029395bdf");
    assert_eq!(w.generate_avax_address(&key_one()).unwrap(), "0x7e5f4552091a69125d5dfcb7b8c2659029395bdf");
    assert_eq!(w.generate_btc_address(&key_one(), 0).unwrap(), "1BgGZ9tcN4rm9KBzDn7KprQz87SZ26SAMH");
    assert_eq!(w.generate_sol_address(&key_one()).unwrap(), "6ASf5EcmmEHTgDJ4X4ZT5vT6iHVJBXPg5AN5YoTCpGWt");
}

#[test]
fn bitcoin_family_uses_each_chains_version_byte() {
    let w = WalletGenerator::new();
    let key = PrivateKey {
        curve: Curve::Secp256k1,
        bytes: unhex("1ab42cc412b618bdea3a599e3c9bae199ebf030895b039e9db1e30dafb12b727"),
    };
    assert_eq!(w.generate_address(&key, &WalletType::Btc).unwrap(), "17D4gErm7cqDznM4EstEfnP6y91MWADXm8");
    assert_eq!(w.generate_address(&key, &WalletType::Bitcoin).unwrap(), "17D4gErm7cqDznM4EstEfnP6y91MWADXm8");
    assert_eq!(w.generate_address(&key, &WalletType::Litecoin).unwrap(), "LRS1wTAbCH5HFb3DR1sXwoSsBMNdg9ULU5");
    assert_eq!(w.generate_address(&key, &WalletType::Dogecoin).unwrap(), "DBMADVoQR2jWXnXeyTsoDYYhrGjepcWNgt");
}

#[test]
fn invalid_secp256k1_scalars_are_refused() {
    let w = WalletGenerator::new();
    let order = unhex("fffffffffffffffffffffffffffffffebaaedce6af48a03bbfd25e8cd0364141");
    for bad in [vec![0u8; 32], order, vec![1u8; 31], vec![0xffu8; 32]] {
        assert_eq!(w.generate_eth_address(&bad), Err(WalletError::KeyEncodingError));
        assert_eq!(w.generate_btc_address(&bad, 0), Err(WalletError::KeyEncodingError));
    }
    assert_eq!(w.generate_sol_address(&[1u8; 31]), Err(WalletError::KeyEncodingError));
}

#[test]
fn keys_of_the_wrong_curve_are_refused() {
    let w = WalletGenerator::new();
    let ed = PrivateKey { curve: Curve::Ed25519, bytes: key_one() };
    let secp = PrivateKey { curve: Curve::Secp256k1, bytes: key_one() };
    for t in [WalletType::Eth, WalletType::Btc, WalletType::Polygon, WalletType::Litecoin] {
        assert_eq!(w.generate_address(&ed, &t), Err(WalletError::KeyEncodingError));
    }
    assert_eq!(w.generate_address(&secp, &WalletType::Sol), Err(WalletError::KeyEncodingError));
}

#[test]
fn same_bytes_on_both_curves_give_different_addresses() {
    let w = WalletGenerator::new();
    for bytes in [key_one(), vec![7u8; 32]] {
        let secp = PrivateKey { curve: Curve::Secp256k1, bytes: bytes.clone() };
        let ed = PrivateKey { curve: Curve::Ed25519, bytes };
        let a = w.generate_address(&secp, &WalletType::Eth).unwrap();
        let b = w.generate_address(&ed, &WalletType::Sol).unwrap();
        let c = w.generate_address(&secp, &WalletType::Btc).unwrap();
        assert_ne!(a, b);
        assert_ne!(c, b);
    }
}

#[test]
fn chain_names_parse_and_print() {
    let all = [
        WalletType::Eth,
        WalletType::Btc,
        WalletType::Sol,
        WalletType::Polygon,
        WalletType::Avax,
        WalletType::Bitcoin,
        WalletType::Ethereum,
        WalletType::Litecoin,
        WalletType::Dogecoin,
    ];
    for t in all {
        assert_eq!(WalletType::parse(&t.to_string()), Ok(t));
    }
    assert_eq!(WalletType::Avax.network_label(), "Avalanche Mainnet");
    assert_eq!(WalletType::Ethereum.network_label(), "Ethereum Mainnet");
    assert_eq!(WalletType::parse("ETH"), Err(WalletError::UnsupportedChain));
    assert_eq!(WalletType::parse(""), Err(WalletError::UnsupportedChain));
}

#[test]
fn validation_and_derivation_ignore_letter_case() {
    let g = Bip39Generator::new();
    let upper = ABANDON.to_uppercase();
    assert_eq!(g.validate_phrase(&upper), Ok(true));
    assert_eq!(g.validate_phrase("Abandon\tabandon abandon abandon abandon abandon abandon abandon abandon abandon abandon\nABOUT"), Ok(true));
    assert_eq!(g.phrase_to_private_key(&upper), g.phrase_to_private_key(ABANDON));
    assert_eq!(g.phrase_to_private_key_solana(&upper), g.phrase_to_private_key_solana(ABANDON));
}
