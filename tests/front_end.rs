use rust_wallet_gen::chain::WalletType;
use rust_wallet_gen::gui::{batch_count_of, Action, Message, WalletGenerator};
use rust_wallet_gen::wallet::{Timestamp, Wallet};

fn sample_wallet(phrase: Option<&str>) -> Wallet {
    Wallet::new_at(
        WalletType::Sol,
        "ADDR".to_string(),
        "KEY".to_string(),
        phrase.map(|p| p.to_string()),
        Timestamp { seconds: 0, nanos: 0 },
    )
}

#[test]
fn batch_count_parsing() {
    assert_eq!(batch_count_of("5"), 5);
    assert_eq!(batch_count_of("+7"), 7);
    assert_eq!(batch_count_of("007"), 7);
    assert_eq!(batch_count_of("4294967295"), 4294967295);
    assert_eq!(batch_count_of("4294967296"), 1);
    assert_eq!(batch_count_of(""), 1);
    assert_eq!(batch_count_of("+"), 1);
    assert_eq!(batch_count_of("-3"), 1);
    assert_eq!(batch_count_of("1a"), 1);
    assert_eq!(batch_count_of(" 2"), 1);
}

#[test]
fn front_end_starts_empty() {
    let g = WalletGenerator::new();
    assert!(g.wallet.is_none());
    assert_eq!(g.wallet_type, WalletType::Eth);
    assert_eq!(g.batch_count, "1");
    assert_eq!(g.save_format, "json");
    assert_eq!(g.title(), "Rust Wallet Generator");
}

#[test]
fn generate_request_carries_settings() {
    let mut g = WalletGenerator::new();
    assert!(matches!(g.update(Message::WalletTypeChanged(WalletType::Sol)), Action::Nothing));
    g.update(Message::EncryptChanged(true));
    g.update(Message::PasswordChanged("pw".to_string()));
    g.update(Message::GenerateSeedPhrase);
    match g.update(Message::GenerateWallet) {
        Action::Generate { wallet_type, encrypt, password, include_seed_phrase } => {
            assert_eq!(wallet_type, WalletType::Sol);
            assert!(encrypt);
            assert_eq!(password.as_deref(), Some("pw"));
            assert!(include_seed_phrase);
        }
        _ => panic!("expected a generate action"),
    }
    assert!(g.generating);
    g.update(Message::WalletGenerated(Err("failed".to_string())));
    assert!(!g.generating);
    assert!(g.wallet.is_none());
}

#[test]
fn qr_and_clipboard_follow_the_wallet() {
    let mut g = WalletGenerator::new();
    assert!(matches!(g.update(Message::CopyAddress), Action::Nothing));
    g.update(Message::ShowAddressQR);
    assert!(!g.qr_window_open);
    g.update(Message::WalletGenerated(Ok(sample_wallet(None))));
    match g.update(Message::CopyPrivateKey) {
        Action::CopyToClipboard(t) => assert_eq!(t, "KEY"),
        _ => panic!("expected a copy"),
    }
    assert!(matches!(g.update(Message::CopySeedPhrase), Action::Nothing));
    g.update(Message::ShowSeedPhraseQR);
    assert!(!g.qr_window_open);
    g.update(Message::ShowAddressQR);
    assert!(g.qr_window_open);
    assert_eq!(g.qr_data.as_deref(), Some("ADDR"));
    assert_eq!(g.title(), "Address QR Code");
    g.update(Message::CloseQRWindow);
    assert!(!g.qr_window_open);
    assert_eq!(g.title(), "Rust Wallet Generator");
    g.update(Message::WalletGenerated(Ok(sample_wallet(Some("w1 w2")))));
    g.update(Message::ShowSeedPhraseQR);
    assert_eq!(g.qr_data.as_deref(), Some("w1 w2"));
    assert_eq!(g.title(), "Seed Phrase QR Code");
}

#[test]
fn save_import_and_batch_requests() {
    let mut g = WalletGenerator::new();
    assert!(matches!(g.update(Message::SaveWallet), Action::Nothing));
    assert!(!g.saving);
    g.update(Message::WalletGenerated(Ok(sample_wallet(None))));
    g.update(Message::SaveFormatChanged("txt".to_string()));
    match g.update(Message::SaveWallet) {
        Action::Save { format } => assert_eq!(format, "txt"),
        _ => panic!("expected a save"),
    }
    assert!(g.saving);
    assert!(matches!(g.update(Message::ImportWallet), Action::Nothing));
    g.update(Message::ImportSeedPhraseChanged("some words".to_string()));
    g.update(Message::WalletTypeChanged(WalletType::Btc));
    match g.update(Message::ImportWallet) {
        Action::Import { chain, phrase } => {
            assert_eq!(chain, "btc");
            assert_eq!(phrase, "some words");
        }
        _ => panic!("expected an import"),
    }
    g.update(Message::BatchStatusUpdated("old".to_string()));
    g.update(Message::BatchCountChanged("12".to_string()));
    match g.update(Message::BatchGenerate) {
        Action::Batch { chain, count, format, include_seed_phrase } => {
            assert_eq!(chain, "btc");
            assert_eq!(count, 12);
            assert_eq!(format, "txt");
            assert!(!include_seed_phrase);
        }
        _ => panic!("expected a batch"),
    }
    assert!(g.batch_status_message.is_none());
    g.update(Message::ClearWallet);
    assert!(g.wallet.is_none());
}
