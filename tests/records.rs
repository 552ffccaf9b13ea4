use rust_wallet_gen::chain::WalletType;
use rust_wallet_gen::display::{format_address, format_private_key, solana_keypair_bytes, OutputFormat};
use rust_wallet_gen::error::WalletError;
use rust_wallet_gen::mnemonic::Bip39Generator;
use rust_wallet_gen::wallet::{Timestamp, Wallet, WalletGenerator};

const ABANDON: &str = "abandon abandon abandon abandon abandon abandon abandon abandon abandon abandon abandon about";
const DONATION: &str = "Solana: 5Bkgy7Xd6zj5K6HkCERoNNseCGx7WCX3LxrxmL8KgCk4";

#[test]
fn import_is_deterministic() {
    let g = WalletGenerator::new();
    for t in [WalletType::Eth, WalletType::Sol, WalletType::Btc, WalletType::Dogecoin] {
        let a = g.import_from_phrase(ABANDON, t).unwrap();
        let b = g.import_from_phrase(ABANDON, t).unwrap();
        assert_eq!(a.address, b.address);
        assert_eq!(a.private_key, b.private_key);
    }
}

#[test]
fn import_fills_the_record() {
    let g = WalletGenerator::new();
    let at = Timestamp { seconds: 1_700_000_000, nanos: 5 };
    let w = g.import_from_phrase_at(ABANDON, WalletType::Ethereum, at).unwrap();
    assert_eq!(w.wallet_type, "ethereum");
    assert_eq!(w.address, "0x9858effd232b4033e47d90003d41ec34ecaeda94");
    assert_eq!(w.private_key, "1ab42cc412b618bdea3a599e3c9bae199ebf030895b039e9db1e30dafb12b727");
    assert_eq!(w.seed_phrase.as_deref(), Some(ABANDON));
    assert_eq!(w.network, "Ethereum Mainnet");
    assert_eq!(w.support_my_work, DONATION);
    assert_eq!(w.created_at, at);
    let s = g.import_from_phrase(ABANDON, WalletType::Sol).unwrap();
    assert_eq!(s.address, "HAgk14JpMQLgt6rVgv7cBQFJWFto5Dqxi472uT3DKpqk");
    assert!(s.created_at.seconds > 1_600_000_000);
}

#[test]
fn import_refuses_invalid_phrases() {
    let g = WalletGenerator::new();
    let bad = vec!["abandon"; 12].join(" ");
    assert_eq!(g.import_from_phrase(&bad, WalletType::Eth).unwrap_err(), WalletError::InvalidMnemonic);
    assert_eq!(g.import_from_phrase("", WalletType::Sol).unwrap_err(), WalletError::InvalidMnemonic);
}

#[test]
fn generated_wallet_with_phrase_reimports_to_the_same_keys() {
    let g = WalletGenerator::new();
    for t in [WalletType::Sol, WalletType::Eth, WalletType::Litecoin] {
        let w = g.generate_wallet(t, true, 24).unwrap();
        let phrase = w.seed_phrase.clone().unwrap();
        assert_eq!(Bip39Generator::new().get_word_count(&phrase), Ok(24));
        let again = g.import_from_phrase(&phrase, t).unwrap();
        assert_eq!(again.address, w.address);
        assert_eq!(again.private_key, w.private_key);
    }
}

#[test]
fn generated_wallet_without_phrase_has_a_random_key() {
    let g = WalletGenerator::new();
    let w = g.generate_wallet(WalletType::Eth, false, 0).unwrap();
    assert!(w.seed_phrase.is_none());
    assert_eq!(w.private_key.len(), 64);
    assert!(w.address.starts_with("0x"));
    assert_eq!(w.address.len(), 42);
    let k = g.generate_random_private_key().unwrap();
    assert_eq!(k.len(), 32);
}

#[test]
fn generated_wallet_refuses_bad_word_count() {
    let g = WalletGenerator::new();
    assert_eq!(g.generate_wallet(WalletType::Btc, true, 13).unwrap_err(), WalletError::InvalidWordCount);
}

#[test]
fn wallet_by_chain_name() {
    let g = WalletGenerator::new();
    assert_eq!(g.generate_wallet_by_type("cardano", true).unwrap_err(), WalletError::UnsupportedChain);
    let w = g.generate_wallet_by_type("litecoin", true).unwrap();
    assert_eq!(w.wallet_type, "litecoin");
    assert!(w.address.starts_with('L'));
    assert_eq!(Bip39Generator::new().get_word_count(w.seed_phrase.as_deref().unwrap()), Ok(12));
    let d = g.generate_wallet_by_type("dogecoin", false).unwrap();
    assert!(d.address.starts_with('D'));
    assert!(d.seed_phrase.is_none());
}

#[test]
fn wallet_from_fixed_entropy_and_key() {
    let g = WalletGenerator::new();
    let at = Timestamp { seconds: 0, nanos: 0 };
    let w = g.wallet_from_entropy(WalletType::Eth, &[0u8; 16], at).unwrap();
    assert_eq!(w.seed_phrase.as_deref(), Some(ABANDON));
    assert_eq!(w.address, "0x9858effd232b4033e47d90003d41ec34ecaeda94");
    assert_eq!(g.wallet_from_entropy(WalletType::Eth, &[0u8; 8], at).unwrap_err(), WalletError::InvalidWordCount);
    let mut one = [0u8; 32];
    one[31] = 1;
    let b = g.wallet_from_random_key(WalletType::Btc, &one, at).unwrap();
    assert_eq!(b.address, "1BgGZ9tcN4rm9KBzDn7KprQz87SZ26SAMH");
    assert_eq!(b.private_key, "0000000000000000000000000000000000000000000000000000000000000001");
    assert_eq!(b.network, "Bitcoin Mainnet");
    assert_eq!(g.wallet_from_random_key(WalletType::Eth, &[0u8; 32], at).unwrap_err(), WalletError::KeyEncodingError);
}

#[test]
fn record_text_layout() {
    let w = Wallet::new_at(
        WalletType::Sol,
        "ADDR".to_string(),
        "KEY".to_string(),
        Some("words".to_string()),
        Timestamp { seconds: 0, nanos: 0 },
    );
    let expected = format!(
        "Wallet Type: sol\nNetwork: Solana Mainnet\nAddress: ADDR\nPrivate Key: KEY\nSeed Phrase: words\nCreated: 1970-01-01 00:00:00 UTC\nSupport my work: {}\n",
        DONATION
    );
    assert_eq!(w.to_text("1970-01-01 00:00:00 UTC"), expected);
    let n = Wallet::new(WalletType::Btc, "A".to_string(), "K".to_string(), None);
    assert_eq!(n.to_text("T"), format!("Wallet Type: btc\nNetwork: Bitcoin Mainnet\nAddress: A\nPrivate Key: K\nCreated: T\nSupport my work: {}\n", DONATION));
}

#[test]
fn output_formats() {
    assert_eq!(OutputFormat::parse("json"), Ok(OutputFormat::Json));
    assert_eq!(OutputFormat::parse("txt"), Ok(OutputFormat::Text));
    assert_eq!(OutputFormat::parse("xml"), Err(WalletError::UnsupportedFormat));
    assert_eq!(OutputFormat::Text.extension(), "txt");
}

#[test]
fn shortened_display_forms() {
    assert_eq!(
        format_address("0x9858effd232b4033e47d90003d41ec34ecaeda94"),
        "0x9858effd...34ecaeda94"
    );
    assert_eq!(format_address("short"), "short");
    assert_eq!(format_address("exactly-twenty-chars"), "exactly-twenty-chars");
    let wide = "\u{e9}".repeat(11);
    assert_eq!(format_address(&wide), format!("{}...{}", "\u{e9}".repeat(5), "\u{e9}".repeat(5)));
    assert_eq!(format_address(&"\u{e9}".repeat(10)), "\u{e9}".repeat(10));
    assert_eq!(
        format_private_key("1ab42cc412b618bdea3a599e3c9bae199ebf030895b039e9db1e30dafb12b727"),
        "1ab42cc412...dafb12b727"
    );
}

#[test]
fn solana_keypair_is_secret_then_public() {
    let k = solana_keypair_bytes(&[0u8; 32]).unwrap();
    assert_eq!(k.len(), 64);
    assert_eq!(&k[..32], &[0u8; 32]);
    assert_eq!(k[32], 0x3b);
    assert_eq!(k[63], 0x29);
    assert_eq!(solana_keypair_bytes(&[0u8; 31]), Err(WalletError::KeyEncodingError));
}

#[test]
fn address_shape_checks() {
    let g = WalletGenerator::new();
    assert_eq!(g.validate_address("0x9858EfFD232B4033E47d90003D41EC34EcaEda94", WalletType::Eth), Ok(true));
    assert_eq!(g.validate_address("0x9858EfFD232B4033E47d90003D41EC34EcaEda9", WalletType::Eth), Ok(false));
    assert_eq!(g.validate_address("0x9858EfFD232B4033E47d90003D41EC34EcaEda9g", WalletType::Ethereum), Ok(false));
    assert_eq!(g.validate_address("1BgGZ9tcN4rm9KBzDn7KprQz87SZ26SAMH", WalletType::Btc), Ok(true));
    assert_eq!(g.validate_address("1BgGZ9tcN4rm9KBzDn7KprQz87SZ26SAMX", WalletType::Bitcoin), Ok(false));
    assert_eq!(g.validate_address("4zvwRjXUKGfvwnParsHAS3HuSVzV5cA4McphgmoCtajS", WalletType::Sol), Ok(true));
    assert_eq!(g.validate_address("0OIl", WalletType::Sol), Ok(false));
    assert_eq!(g.validate_address("0x9858EfFD232B4033E47d90003D41EC34EcaEda94", WalletType::Polygon), Ok(true));
    assert_eq!(g.validate_address("4zvwRjXUKGfvwnParsHAS3HuSVzV5cA4McphgmoCtajS", WalletType::Avax), Ok(false));
}

#[test]
fn import_accepts_capitalised_phrase() {
    let g = WalletGenerator::new();
    let w = g.import_from_phrase(&ABANDON.to_uppercase(), WalletType::Eth).unwrap();
    assert_eq!(w.address, "0x9858effd232b4033e47d90003d41ec34ecaeda94");
}

#[test]
fn generated_addresses_pass_their_own_check() {
    let g = WalletGenerator::new();
    for t in [
        WalletType::Eth,
        WalletType::Ethereum,
        WalletType::Polygon,
        WalletType::Avax,
        WalletType::Btc,
        WalletType::Bitcoin,
        WalletType::Sol,
        WalletType::Litecoin,
        WalletType::Dogecoin,
    ] {
        let w = g.generate_wallet(t, false, 0).unwrap();
        assert_eq!(g.validate_address(&w.address, t), Ok(true));
    }
}

#[test]
fn generated_phrase_is_single_spaced() {
    let g = WalletGenerator::new();
    let w = g.generate_wallet_by_type("sol", true).unwrap();
    let p = w.seed_phrase.unwrap();
    assert_eq!(p.split(' ').count(), 12);
    assert!(p.split(' ').all(|word| !word.is_empty() && word.chars().all(|c| c.is_ascii_lowercase())));
}

#[test]
fn phrases_of_other_lengths_are_refused() {
    let g = WalletGenerator::new();
    let fifteen = bip39::Mnemonic::from_entropy(&[0u8; 20]).unwrap().to_string();
    assert_eq!(Bip39Generator::new().validate_phrase(&fifteen), Ok(false));
    assert_eq!(g.import_from_phrase(&fifteen, WalletType::Eth).unwrap_err(), WalletError::InvalidMnemonic);
    assert_eq!(Bip39Generator::new().phrase_to_private_key(&fifteen), Err(WalletError::DerivationError));
    assert_eq!(Bip39Generator::new().phrase_to_private_key_solana(&fifteen), Err(WalletError::DerivationError));
}
