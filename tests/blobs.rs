use rust_wallet_gen::encryption::FileEncryption;
use rust_wallet_gen::error::WalletError;

fn unhex(s: &str) -> Vec<u8> {
    (0..s.len()).step_by(2).map(|i| u8::from_str_radix(&s[i..i + 2], 16).unwrap()).collect()
}

#[test]
fn encryption_round_trip() {
    let e = FileEncryption::new();
    for payload in [&b""[..], &b"x"[..], &b"{\"address\":\"0x00\"}"[..], &[0u8, 255, 7, 128][..]] {
        let blob = e.encrypt_with_password(payload, "correct horse").unwrap();
        assert_eq!(blob.len(), 44 + payload.len() + 16);
        assert_eq!(e.decrypt_with_password(&blob, "correct horse").unwrap(), payload);
    }
}

#[test]
fn fixed_salt_and_nonce_give_the_known_blob() {
    let e = FileEncryption::new();
    let salt: Vec<u8> = (0u8..32).collect();
    let nonce: Vec<u8> = (0u8..12).collect();
    let blob = e.encrypt_with_salt_and_nonce(b"hello", "pw", &salt, &nonce).unwrap();
    assert_eq!(&blob[..32], &salt[..]);
    assert_eq!(&blob[32..44], &nonce[..]);
    assert_eq!(&blob[44..], &unhex("c8535790f4f910e705a7058d0c22a1f675760992f1")[..]);
    assert_eq!(e.decrypt_with_password(&blob, "pw").unwrap(), b"hello");
}

#[test]
fn wrong_password_fails() {
    let e = FileEncryption::new();
    let blob = e.encrypt_with_password(b"secret", "one").unwrap();
    assert_eq!(e.decrypt_with_password(&blob, "two"), Err(WalletError::DecryptionFailed));
}

#[test]
fn any_flipped_ciphertext_bit_fails() {
    let e = FileEncryption::new();
    let blob = e.encrypt_with_password(b"wallet data", "pw").unwrap();
    for i in 44..blob.len() {
        for bit in 0..8 {
            let mut t = blob.clone();
            t[i] ^= 1 << bit;
            assert_eq!(e.decrypt_with_password(&t, "pw"), Err(WalletError::DecryptionFailed));
        }
    }
    let mut t = blob.clone();
    t[0] ^= 1;
    assert_eq!(e.decrypt_with_password(&t, "pw"), Err(WalletError::DecryptionFailed));
    let mut t = blob.clone();
    t[40] ^= 0x80;
    assert_eq!(e.decrypt_with_password(&t, "pw"), Err(WalletError::DecryptionFailed));
}

#[test]
fn encryption_is_not_deterministic() {
    let e = FileEncryption::new();
    let a = e.encrypt_with_password(b"same", "pw").unwrap();
    let b = e.encrypt_with_password(b"same", "pw").unwrap();
    assert_ne!(a, b);
    assert_ne!(&a[..44], &b[..44]);
}

#[test]
fn short_blobs_are_malformed() {
    let e = FileEncryption::new();
    for n in [0usize, 1, 43] {
        assert_eq!(e.decrypt_with_password(&vec![0u8; n], "pw"), Err(WalletError::MalformedBlob));
    }
    assert_eq!(e.decrypt_with_password(&[0u8; 44], "pw"), Err(WalletError::DecryptionFailed));
    assert_eq!(e.decrypt_with_password(&[0u8; 59], "pw"), Err(WalletError::DecryptionFailed));
    assert_eq!(e.decrypt_with_password(&[0u8; 60], "pw"), Err(WalletError::DecryptionFailed));
}

#[test]
fn wallet_file_round_trip_and_invalid_text() {
    let e = FileEncryption::new();
    let text = "{\n  \"wallet_type\": \"sol\",\n  \"note\": \"caf\u{e9}\"\n}";
    let blob = e.encrypt_wallet_file(text, "pw").unwrap();
    assert_eq!(blob.len(), text.len() + 60);
    assert_eq!(e.decrypt_wallet_file(&blob, "pw").unwrap(), text);
    let bad = e.encrypt_with_password(&[0xff, 0xfe], "pw").unwrap();
    assert_eq!(e.decrypt_wallet_file(&bad, "pw"), Err(WalletError::InvalidUtf8));
    assert_eq!(e.decrypt_wallet_file(&blob, "other"), Err(WalletError::DecryptionFailed));
}
