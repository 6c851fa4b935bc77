use vstd::prelude::*;

verus! {

/// The stored form of an authenticated-encrypted blob. The salt and nonce are
/// public and kept alongside the ciphertext; the password is supplied
/// out-of-band when the blob is decrypted.
#[derive(Debug, Clone)]
pub struct EncryptedContent {
    pub salt: Vec<u8>,
    pub nonce: Vec<u8>,
    pub data: Vec<u8>,
}

/// Failure of `encrypt`.
#[derive(Debug, Clone, Copy, PartialEq, Eq, Structural)]
pub enum EncryptError {
    /// The password-hashing step failed.
    HashPassword,
    /// The cipher rejected the plaintext.
    Encrypt,
}

/// Failure of `decrypt`. Deliberately opaque: a caller cannot tell a wrong
/// password from a wrong salt or corrupted ciphertext.
#[derive(Debug, Clone, Copy, PartialEq, Eq, Structural)]
pub enum DecryptError {
    /// The password-hashing step failed.
    HashPassword,
    /// Authentication failed: wrong key, wrong nonce or tampered data.
    Decrypt,
}

/// The symmetric key that the memory-hard password hash derives from a
/// password and a salt, with this library's fixed parameters.
pub uninterp spec fn derived_key(password: Seq<u8>, salt: Seq<u8>) -> Seq<u8>;

/// The ciphertext that the AEAD cipher produces from a key, a nonce and a
/// plaintext.
pub uninterp spec fn sealed(key: Seq<u8>, nonce: Seq<u8>, plaintext: Seq<u8>) -> Seq<u8>;

/// The plaintext that the AEAD cipher recovers from a key, a nonce and a
/// ciphertext, or `None` when authentication fails.
pub uninterp spec fn unsealed(key: Seq<u8>, nonce: Seq<u8>, ciphertext: Seq<u8>) -> Option<Seq<u8>>;

/// Input lengths that the key-derivation function accepts.
pub open spec fn derivable(password: Seq<u8>, salt: Seq<u8>) -> bool {
    &&& 8 <= salt.len() <= 0xFFFF_FFFF
    &&& password.len() <= 0xFFFF_FFFF
}

/// Relies on the system's secure random source, reached through
/// `Generate::generate` for byte arrays: it fills a fresh 16-byte salt
/// (and aborts only if the operating system's randomness fails).
#[verifier::external_body]
fn random_salt() -> (r: Vec<u8>)
    ensures
        r@.len() == 16,
{
    let salt: [u8; 16] = <[u8; 16] as chacha20poly1305::aead::Generate>::generate();
    salt.to_vec()
}

/// Relies on the system's secure random source, reached through
/// `Generate::generate` for `XNonce`: it draws a fresh 24-byte nonce
/// (and aborts only if the operating system's randomness fails).
#[verifier::external_body]
fn random_nonce() -> (r: Vec<u8>)
    ensures
        r@.len() == 24,
{
    let nonce: chacha20poly1305::XNonce =
        <chacha20poly1305::XNonce as chacha20poly1305::aead::Generate>::generate();
    nonce.as_slice().to_vec()
}

/// Relies on argon2's `hash_password_into` with default parameters: the
/// 32-byte output is a deterministic function of password and salt alone, and
/// the call fails exactly when the salt is shorter than 8 bytes or the
/// password or salt is longer than `u32::MAX` bytes (a failure to allocate
/// the work buffer aborts, as any allocation may).
#[verifier::external_body]
fn derive_key(password: &[u8], salt: &[u8]) -> (r: Option<Vec<u8>>)
    ensures
        r matches Some(k) ==> k@ == derived_key(password@, salt@) && k@.len() == 32,
        r is Some <==> derivable(password@, salt@),
{
    let mut key = [0u8; 32];
    let outcome = argon2::Argon2::default().hash_password_into(password, salt, &mut key);
    if matches!(outcome, Err(argon2::Error::OutOfMemory)) {
        outcome.expect("failed to allocate key-derivation memory");
    }
    match outcome {
        Ok(()) => Some(key.to_vec()),
        Err(_) => None,
    }
}

/// Relies on chacha20poly1305's `encrypt` for `XChaCha20Poly1305`: the
/// ciphertext is a deterministic function of key, nonce and plaintext;
/// decrypting it under the same key and nonce returns the plaintext; and the
/// call fails exactly when the plaintext would overflow the cipher's 32-bit
/// block counter (`u32::MAX` 64-byte blocks).
#[verifier::external_body]
fn aead_seal(key: &[u8], nonce: &[u8], plaintext: &[u8]) -> (r: Option<Vec<u8>>)
    requires
        key@.len() == 32,
        nonce@.len() == 24,
    ensures
        r matches Some(c) ==> {
            &&& c@ == sealed(key@, nonce@, plaintext@)
            &&& unsealed(key@, nonce@, c@) == Some(plaintext@)
        },
        r is Some <==> plaintext@.len() < 0x3F_FFFF_FFC0,
{
    let key: &chacha20poly1305::Key = key.try_into().unwrap();
    let cipher = <chacha20poly1305::XChaCha20Poly1305 as chacha20poly1305::KeyInit>::new(key);
    let nonce: &chacha20poly1305::XNonce = nonce.try_into().unwrap();
    chacha20poly1305::aead::Aead::encrypt(&cipher, nonce, plaintext).ok()
}

/// Relies on chacha20poly1305's `decrypt` for `XChaCha20Poly1305`: it returns
/// the unique plaintext that authenticates under the key and nonce, and fails
/// exactly when no plaintext does.
#[verifier::external_body]
fn aead_unseal(key: &[u8], nonce: &[u8], ciphertext: &[u8]) -> (r: Option<Vec<u8>>)
    requires
        key@.len() == 32,
        nonce@.len() == 24,
    ensures
        r matches Some(m) ==> unsealed(key@, nonce@, ciphertext@) == Some(m@),
        r is None ==> unsealed(key@, nonce@, ciphertext@) is None,
{
    let key: &chacha20poly1305::Key = key.try_into().unwrap();
    let cipher = <chacha20poly1305::XChaCha20Poly1305 as chacha20poly1305::KeyInit>::new(key);
    let nonce: &chacha20poly1305::XNonce = nonce.try_into().unwrap();
    chacha20poly1305::aead::Aead::decrypt(&cipher, nonce, ciphertext).ok()
}

/// What it means for a stored blob to be an encryption of `plaintext` under
/// `password`: the salt and nonce have their fixed widths, the ciphertext is
/// the seal of the plaintext under the key derived from password and salt,
/// and unsealing it recovers the plaintext.
pub open spec fn is_encryption_of(password: Seq<u8>, plaintext: Seq<u8>, ec: EncryptedContent) -> bool {
    &&& ec.salt@.len() == 16
    &&& derivable(password, ec.salt@)
    &&& ec.nonce@.len() == 24
    &&& ec.data@ == sealed(derived_key(password, ec.salt@), ec.nonce@, plaintext)
    &&& unsealed(derived_key(password, ec.salt@), ec.nonce@, ec.data@) == Some(plaintext)
}

/// The outcome that decryption is committed to: the unseal of the ciphertext
/// under the key derived from password and salt, provided the nonce has the
/// cipher's width.
pub open spec fn decryption_of(password: Seq<u8>, salt: Seq<u8>, nonce: Seq<u8>, data: Seq<u8>) -> Option<Seq<u8>> {
    if nonce.len() == 24 {
        unsealed(derived_key(password, salt), nonce, data)
    } else {
        None
    }
}

/// Encrypt `input` under `password`: draw a fresh 16-byte salt and 24-byte
/// nonce, derive a key from the password and salt, and seal the input.
pub fn encrypt(password: &[u8], input: &[u8]) -> (r: Result<EncryptedContent, EncryptError>)
    ensures
        r matches Ok(ec) ==> is_encryption_of(password@, input@, ec),
        password@.len() <= 0xFFFF_FFFF && input@.len() < 0x3F_FFFF_FFC0 ==> r is Ok,
        r == Err::<EncryptedContent, EncryptError>(EncryptError::HashPassword)
            ==> password@.len() > 0xFFFF_FFFF,
        r == Err::<EncryptedContent, EncryptError>(EncryptError::Encrypt) ==> input@.len()
            >= 0x3F_FFFF_FFC0,
{
    let salt = random_salt();
    let key = match derive_key(password, salt.as_slice()) {
        Some(k) => k,
        None => {
            return Err(EncryptError::HashPassword);
        },
    };
    let nonce = random_nonce();
    let data = match aead_seal(key.as_slice(), nonce.as_slice(), input) {
        Some(c) => c,
        None => {
            return Err(EncryptError::Encrypt);
        },
    };
    Ok(EncryptedContent { salt, nonce, data })
}

/// Decrypt a stored blob from its parts. Fails closed: a wrong password, a
/// wrong salt or nonce, and tampered data all surface as `Decrypt` or
/// `HashPassword`, never as partial plaintext.
pub fn decrypt(password: &[u8], salt: &[u8], nonce: &[u8], input: &[u8]) -> (r: Result<
    Vec<u8>,
    DecryptError,
>)
    ensures
        r matches Ok(m) ==> decryption_of(password@, salt@, nonce@, input@) == Some(m@),
        derivable(password@, salt@) ==> (decryption_of(password@, salt@, nonce@, input@)
            matches Some(m) ==> (r matches Ok(out) && out@ == m)),
        decryption_of(password@, salt@, nonce@, input@) is None ==> r is Err,
        r == Err::<Vec<u8>, DecryptError>(DecryptError::Decrypt) <==> (derivable(
            password@,
            salt@,
        ) && decryption_of(password@, salt@, nonce@, input@) is None),
        r == Err::<Vec<u8>, DecryptError>(DecryptError::HashPassword) <==> !derivable(
            password@,
            salt@,
        ),
{
    let key = match derive_key(password, salt) {
        Some(k) => k,
        None => {
            return Err(DecryptError::HashPassword);
        },
    };
    if nonce.len() != 24 {
        return Err(DecryptError::Decrypt);
    }
    match aead_unseal(key.as_slice(), nonce, input) {
        Some(m) => Ok(m),
        None => Err(DecryptError::Decrypt),
    }
}

/// Round trip: a blob that `encrypt` produced under a password decrypts,
/// under the same password, to exactly the original plaintext — the inputs
/// are ones `decrypt` is obliged to succeed on, and it returns the
/// plaintext.
pub proof fn lemma_encrypt_decrypt_round_trip(password: Seq<u8>, plaintext: Seq<u8>, ec: EncryptedContent)
    requires
        is_encryption_of(password, plaintext, ec),
    ensures
        decryption_of(password, ec.salt@, ec.nonce@, ec.data@) == Some(plaintext),
        derivable(password, ec.salt@),
{
}

} // verus!
