use torrent_assistant::crypto::{random_salt, Crypto, CryptoErrorKind, EncSize};

#[test]
pub fn crypto_test() {
    let key = "Some secret key!Some secret key!Some secret key!".to_owned();
    let message = "Some message to test crypto ".to_owned();
    let crypto = Crypto::new_one(key).unwrap();
    let enc = crypto.encrypt(&message);
    println!("Encrypted data: {}", enc);
    let dec = crypto.decrypt(&enc);
    let dec2 = crypto.decrypt(&enc);
    assert_eq!(message, dec);
    println!("Decrypted data: {}", dec);
    assert_eq!(message, dec2);
    println!("Decrypted data 2: {}", dec2);
}

#[test]
fn sizes_are_those_of_the_cipher() {
    assert_eq!(<Crypto as EncSize>::key_size(), 32);
    assert_eq!(<Crypto as EncSize>::nonce_size(), 16);
}

#[test]
fn wrong_sizes_are_refused() {
    let short_key = Crypto::new("short".to_owned(), "0123456789abcdef".to_owned());
    match short_key {
        Err(e) => {
            assert!(matches!(e.0, CryptoErrorKind::KeySizeError(_)));
            assert_eq!(e.message(), "KeySizeError: Key has wrong length: 5. Expected: 32");
        }
        Ok(_) => panic!("a short key was accepted"),
    }
    let long_nonce = Crypto::new("0123456789abcdef0123456789abcdef".to_owned(), "0123456789abcdefX".to_owned());
    match long_nonce {
        Err(e) => {
            assert!(matches!(e.0, CryptoErrorKind::NonceSizeError(_)));
            assert_eq!(e.message(), "NonceSizeError: Nonce has wrong length: 17. Expected: 16");
        }
        Ok(_) => panic!("a long nonce was accepted"),
    }
    match Crypto::new_one("too short".to_owned()) {
        Err(e) => assert_eq!(
            e.message(),
            "KeySizeError: Complex key has wrong length: 9. Expected: key(32)+nonce(16)"
        ),
        Ok(_) => panic!("a short joined key was accepted"),
    }
    // sizes are counted in bytes, not in characters
    assert!(Crypto::new("0123456789abcdef0123456789abcdeé".to_owned(), "0123456789abcdef".to_owned()).is_err());
}

#[test]
fn encryption_round_trips_and_is_base64() {
    let crypto = Crypto::new("0123456789abcdef0123456789abcdef".to_owned(), random_salt()).unwrap();
    for message in ["", "p", "пароль with spaces", "a much longer password, longer than one block of the cipher"] {
        let enc = crypto.encrypt(&message.to_owned());
        assert_ne!(enc, message);
        // 16 bytes of tag behind the message, in base64 with padding
        assert_eq!(enc.len(), (message.len() + 16 + 2) / 3 * 4);
        assert_eq!(crypto.try_decrypt(&enc).unwrap(), message);
    }
}

#[test]
fn decryption_failures_are_told_apart() {
    let crypto = Crypto::new("0123456789abcdef0123456789abcdef".to_owned(), "0123456789abcdef".to_owned()).unwrap();
    let other = Crypto::new("0123456789abcdef0123456789abcdef".to_owned(), "fedcba9876543210".to_owned()).unwrap();
    let enc = crypto.encrypt(&"secret".to_owned());
    let bad = crypto.try_decrypt(&"not base64!".to_owned()).unwrap_err();
    assert!(matches!(bad.0, CryptoErrorKind::Base64DecodeError(_)));
    assert_eq!(bad.message(), "Base64DecodeError: String was not Base64 encoded");
    let forged = other.try_decrypt(&enc).unwrap_err();
    assert!(matches!(forged.0, CryptoErrorKind::Unauthentic));
    let short = crypto.try_decrypt(&"AAAA".to_owned()).unwrap_err();
    assert!(matches!(short.0, CryptoErrorKind::Unauthentic));
}

#[test]
fn salt_fits_the_nonce() {
    let salt = random_salt();
    assert_eq!(salt.len(), 16);
    assert!(salt.chars().all(|c| c.is_ascii_alphanumeric()));
    assert!(Crypto::new("0123456789abcdef0123456789abcdef".to_owned(), salt).is_ok());
}
