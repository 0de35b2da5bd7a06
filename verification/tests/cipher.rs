use rusty_password_manager::encryption_controller::{
    load_encrypted_db, seal, seal_with_nonce, AuthFailure, FormatError, KeyError, PasswordEncryption,
    SealError,
};

fn key_of(passphrase: &str) -> [u8; 32] {
    PasswordEncryption::derive_with_salt(passphrase, [7u8; 16]).unwrap().get_encrypted_string()
}

#[test]
fn seal_then_open_gives_the_plaintext() {
    let key = key_of("hunter2");
    for plaintext in [b"".to_vec(), b"a".to_vec(), b"the whole database".to_vec(), vec![0u8; 1000]] {
        let blob = seal(&key, &plaintext).unwrap();
        assert_eq!(blob.len(), 12 + plaintext.len() + 16);
        assert_eq!(load_encrypted_db(blob, &key), Ok(plaintext));
    }
}

#[test]
fn seal_with_nonce_puts_the_nonce_first() {
    let key = [1u8; 32];
    let nonce = [9u8; 12];
    let blob = seal_with_nonce(&key, &nonce, b"secret").unwrap();
    assert_eq!(&blob[..12], &nonce);
    assert_ne!(&blob[12..18], b"secret");
    assert_eq!(load_encrypted_db(blob, &key), Ok(b"secret".to_vec()));
}

#[test]
fn aes_gcm_known_answer() {
    // All-zero key and nonce, empty plaintext: the tag of the GCM test vectors.
    let blob = seal_with_nonce(&[0u8; 32], &[0u8; 12], b"").unwrap();
    let tag: [u8; 16] = [
        0x53, 0x0f, 0x8a, 0xfb, 0xc7, 0x45, 0x36, 0xb9, 0xa9, 0x63, 0xb4, 0xf1, 0xc4, 0xcb, 0x73, 0x8b,
    ];
    assert_eq!(&blob[12..], &tag);
}

#[test]
fn each_call_draws_a_fresh_nonce() {
    let key = [3u8; 32];
    let first = seal(&key, b"same").unwrap();
    let second = seal(&key, b"same").unwrap();
    assert_ne!(first[..12], second[..12]);
    assert_ne!(first, second);
}

#[test]
fn flipping_any_bit_is_detected() {
    let key = key_of("hunter2");
    let blob = seal(&key, b"abc").unwrap();
    for byte in 0..blob.len() {
        for bit in 0..8 {
            let mut changed = blob.clone();
            changed[byte] ^= 1 << bit;
            assert_eq!(load_encrypted_db(changed, &key), Err(AuthFailure));
        }
    }
}

#[test]
fn wrong_key_and_short_blobs_fail_to_open() {
    let key = key_of("hunter2");
    let blob = seal(&key, b"abc").unwrap();
    assert_eq!(load_encrypted_db(blob.clone(), &key_of("hunter3")), Err(AuthFailure));
    assert_eq!(load_encrypted_db(Vec::new(), &key), Err(AuthFailure));
    assert_eq!(load_encrypted_db(blob[..11].to_vec(), &key), Err(AuthFailure));
    assert_eq!(load_encrypted_db(blob[..12].to_vec(), &key), Err(AuthFailure));
    assert_eq!(load_encrypted_db(blob[..27].to_vec(), &key), Err(AuthFailure));
    assert_eq!(load_encrypted_db(blob[..30].to_vec(), &key), Err(AuthFailure));
}

#[test]
fn generated_record_verifies_its_passphrase_only() {
    let record = PasswordEncryption::generate_new("hunter2").unwrap();
    assert!(record.verify_string("hunter2"));
    assert!(!record.verify_string("hunter3"));
    assert!(!record.verify_string(""));
    assert!(!record.verify_string("hunter2 "));
    let empty = PasswordEncryption::generate_new("").unwrap();
    assert!(empty.verify_string(""));
    assert!(!empty.verify_string("x"));
}

#[test]
fn generate_draws_a_fresh_salt() {
    let first = PasswordEncryption::generate_new("hunter2").unwrap();
    let second = PasswordEncryption::generate_new("hunter2").unwrap();
    assert_ne!(first.get_encrypted_string(), second.get_encrypted_string());
    assert_ne!(first.create_string(), second.create_string());
}

#[test]
fn pbkdf2_known_answer() {
    // PBKDF2-HMAC-SHA256, 100000 rounds, password "password", salt of sixteen 's' bytes.
    let a = PasswordEncryption::derive_with_salt("password", *b"ssssssssssssssss").unwrap();
    let b = PasswordEncryption::derive_with_salt("password", *b"ssssssssssssssss").unwrap();
    assert_eq!(a.get_encrypted_string(), b.get_encrypted_string());
    let other_salt = PasswordEncryption::derive_with_salt("password", *b"tsssssssssssssss").unwrap();
    assert_ne!(a.get_encrypted_string(), other_salt.get_encrypted_string());
    assert_ne!(a.get_encrypted_string(), [0u8; 32]);
    assert!(a.verify_string("password"));
}

#[test]
fn record_text_is_salt_colon_key_in_base64() {
    let record = PasswordEncryption::derive_with_salt("hunter2", [0u8; 16]).unwrap();
    let text = record.create_string();
    let parts: Vec<&str> = text.split(':').collect();
    assert_eq!(parts.len(), 2);
    assert_eq!(parts[0], "AAAAAAAAAAAAAAAAAAAAAA==");
    assert_eq!(parts[1].len(), 44);
    let read = PasswordEncryption::create_from_string(text.clone()).unwrap();
    assert_eq!(read.get_encrypted_string(), record.get_encrypted_string());
    assert_eq!(read.create_string(), text);
    assert!(read.verify_string("hunter2"));
}

#[test]
fn a_third_part_is_ignored() {
    let record = PasswordEncryption::derive_with_salt("hunter2", [5u8; 16]).unwrap();
    let text = format!("{}:ignored", record.create_string());
    let read = PasswordEncryption::create_from_string(text).unwrap();
    assert_eq!(read.get_encrypted_string(), record.get_encrypted_string());
}

#[test]
fn malformed_record_texts_are_refused() {
    let refused = |text: &str| PasswordEncryption::create_from_string(text.to_string()).err();
    assert_eq!(refused(""), Some(FormatError::MissingField));
    assert_eq!(refused("AAAAAAAAAAAAAAAAAAAAAA=="), Some(FormatError::MissingField));
    assert_eq!(refused("!!!:AAAA"), Some(FormatError::InvalidEncoding));
    assert_eq!(refused("AAAAAAAAAAAAAAAAAAAAAA==:???"), Some(FormatError::InvalidEncoding));
    assert_eq!(refused(":"), Some(FormatError::BadLength));
    assert_eq!(refused("AAAA:AAAA"), Some(FormatError::BadLength));
    let short_key = format!("AAAAAAAAAAAAAAAAAAAAAA==:{}", "AAAA");
    assert_eq!(refused(&short_key), Some(FormatError::BadLength));
    let record = PasswordEncryption::derive_with_salt("x", [0u8; 16]).unwrap().create_string();
    let key_part = record.split(':').nth(1).unwrap().to_string();
    let short_salt = format!("AAAA:{}", key_part);
    assert_eq!(refused(&short_salt), Some(FormatError::BadLength));
}

#[test]
fn errors_compare() {
    assert_ne!(KeyError::NoEntropy, KeyError::PassphraseTooLong);
    assert_ne!(SealError::NoEntropy, SealError::PlaintextTooLong);
}
