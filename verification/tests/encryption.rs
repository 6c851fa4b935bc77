use session_broker::encryption::{decrypt, encrypt, DecryptError};

#[test]
fn round_trip_recovers_plaintext() {
    let password = b"correct horse battery staple";
    let plaintext = b"top secret configuration";
    let ec = encrypt(password, plaintext).expect("encrypt failed");
    let out = decrypt(password, &ec.salt, &ec.nonce, &ec.data).expect("decrypt failed");
    assert_eq!(out, plaintext.to_vec());
}

#[test]
fn round_trip_empty_plaintext() {
    let password = b"p";
    let plaintext = b"";
    let ec = encrypt(password, plaintext).expect("encrypt failed");
    let out = decrypt(password, &ec.salt, &ec.nonce, &ec.data).expect("decrypt failed");
    assert_eq!(out, Vec::<u8>::new());
}

#[test]
fn wrong_password_is_rejected() {
    let pairs: [(&[u8], &[u8]); 3] = [
        (b"password-one", b"password-two"),
        (b"", b"x"),
        (b"almost right", b"almost right "),
    ];
    for (p1, p2) in pairs {
        let ec = encrypt(p1, b"payload").expect("encrypt failed");
        let r = decrypt(p2, &ec.salt, &ec.nonce, &ec.data);
        assert!(matches!(r, Err(DecryptError::Decrypt)));
    }
}

#[test]
fn tampered_ciphertext_is_rejected() {
    let password = b"pw";
    let mut ec = encrypt(password, b"payload").expect("encrypt failed");
    ec.data[0] ^= 0x01;
    let r = decrypt(password, &ec.salt, &ec.nonce, &ec.data);
    assert!(matches!(r, Err(DecryptError::Decrypt)));
}

#[test]
fn wrong_salt_is_rejected() {
    let password = b"pw";
    let ec = encrypt(password, b"payload").expect("encrypt failed");
    let other_salt = vec![0u8; 16];
    assert_ne!(ec.salt, other_salt, "fresh salt matched the zero salt");
    let r = decrypt(password, &other_salt, &ec.nonce, &ec.data);
    assert!(matches!(r, Err(DecryptError::Decrypt)));
}

#[test]
fn fresh_randomness_each_encryption() {
    let password = b"pw";
    let plaintext = b"same message";
    let a = encrypt(password, plaintext).expect("encrypt failed");
    let b = encrypt(password, plaintext).expect("encrypt failed");
    assert_ne!(a.salt, b.salt);
    assert_ne!(a.nonce, b.nonce);
    assert_ne!(a.data, b.data);
}

#[test]
fn blob_has_fixed_widths() {
    let ec = encrypt(b"pw", b"m").expect("encrypt failed");
    assert_eq!(ec.salt.len(), 16);
    assert_eq!(ec.nonce.len(), 24);
}

#[test]
fn short_salt_fails_derivation() {
    let r = decrypt(b"pw", b"salt", &[0u8; 24], b"data");
    assert!(matches!(r, Err(DecryptError::HashPassword)));
}

#[test]
fn wrong_nonce_width_fails_closed() {
    let ec = encrypt(b"pw", b"m").expect("encrypt failed");
    let r = decrypt(b"pw", &ec.salt, &ec.nonce[..12], &ec.data);
    assert!(matches!(r, Err(DecryptError::Decrypt)));
}
