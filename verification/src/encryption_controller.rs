//! Key derivation from the master passphrase, and the authenticated cipher
//! that seals the whole credential database into one blob.
//!
//! The cryptography itself is done by `ring` (PBKDF2, the salt), `base64`
//! (the textual form of a key record) and `aes-gcm` (the cipher). Each of
//! their results has a name here, and the functions of this module are
//! stated over those names.

use vstd::prelude::*;
use vstd::utf8::encode_utf8;
use vstd::slice::slice_subrange;
use crate::text::{chars_of, find_char, first_index_of, slice_chars, string_of};

verus! {

/// Length of a derived key, which is also the key length of the cipher.
pub const CREDENTIAL_LEN: usize = 32;

/// Length of the salt of a key record.
pub const SALT_LEN: usize = 16;

/// Length of the nonce at the head of a sealed blob.
pub const NONCE_LEN: usize = 12;

/// Length of the authentication tag at the end of a sealed blob.
pub const TAG_LEN: usize = 16;

/// Iteration count of the key derivation.
pub const PBKDF2_ITERATIONS: u32 = 100_000;

/// The longest passphrase, in bytes, that is handed to the key derivation.
pub const MAX_PASSPHRASE_BYTES: u64 = 0x1000_0000_0000_0000;

/// The longest plaintext, in bytes, that the cipher seals.
pub const MAX_PLAINTEXT_BYTES: u64 = 0x10_0000_0000;

/// The key that PBKDF2 with HMAC-SHA256 derives: `out_len` bytes from the
/// iteration count, the salt and the secret.
pub uninterp spec fn pbkdf2_hmac_sha256(iterations: u32, salt: Seq<u8>, secret: Seq<u8>, out_len: nat) -> Seq<u8>;

/// The standard, padded base64 text of a byte string.
pub uninterp spec fn base64_encode(bytes: Seq<u8>) -> Seq<char>;

/// The bytes that a standard, padded base64 text stands for, if it is one.
pub uninterp spec fn base64_decode(text: Seq<char>) -> Option<Seq<u8>>;

/// The AES-256-GCM ciphertext, tag included, of a plaintext under a key and a
/// nonce, with no associated data.
pub uninterp spec fn aes256_gcm_encrypt(key: Seq<u8>, nonce: Seq<u8>, plaintext: Seq<u8>) -> Seq<u8>;

/// The plaintext that AES-256-GCM recovers from a ciphertext with its tag, or
/// `None` where the tag does not authenticate it.
pub uninterp spec fn aes256_gcm_decrypt(key: Seq<u8>, nonce: Seq<u8>, ciphertext: Seq<u8>) -> Option<Seq<u8>>;

/// `ring::pbkdf2::derive` with HMAC-SHA256, on a 32-byte output buffer.
/// The result is the derived key by definition of its name. The call panics
/// on a zero iteration count and on a secret too long to be hashed, which the
/// preconditions leave out.
#[verifier::external_body]
fn pbkdf2_derive(iterations: u32, salt: &[u8; 16], secret: &[u8]) -> (key: [u8; 32])
    requires
        iterations > 0,
        secret@.len() <= MAX_PASSPHRASE_BYTES,
    ensures
        key@ == pbkdf2_hmac_sha256(iterations, salt@, secret@, 32),
{
    let mut key = [0u8; 32];
    let rounds = std::num::NonZeroU32::new(iterations).unwrap();
    ring::pbkdf2::derive(ring::pbkdf2::PBKDF2_HMAC_SHA256, rounds, salt, secret, &mut key);
    key
}

/// `ring::pbkdf2::verify` with HMAC-SHA256: it derives again from the salt and
/// the secret and compares with the key given, in constant time. It accepts
/// exactly where the two keys are equal.
#[verifier::external_body]
fn pbkdf2_verify(iterations: u32, salt: &[u8; 16], secret: &[u8], key: &[u8; 32]) -> (same: bool)
    requires
        iterations > 0,
        secret@.len() <= MAX_PASSPHRASE_BYTES,
    ensures
        same == (key@ == pbkdf2_hmac_sha256(iterations, salt@, secret@, 32)),
{
    let rounds = std::num::NonZeroU32::new(iterations).unwrap();
    ring::pbkdf2::verify(ring::pbkdf2::PBKDF2_HMAC_SHA256, rounds, salt, secret, key).is_ok()
}

/// `ring::rand::SecureRandom::fill` on the system's random source, for a
/// salt. Nothing is claimed of the bytes; `None` where the source failed.
#[verifier::external_body]
fn random_salt() -> Option<[u8; 16]> {
    let mut salt = [0u8; 16];
    let source = ring::rand::SystemRandom::new();
    ring::rand::SecureRandom::fill(&source, &mut salt).ok().map(|_| salt)
}

/// `try_fill_bytes` of the operating system's random source that `aes-gcm`
/// exports, for a nonce. Nothing is claimed of the bytes; `None` where the
/// source failed.
#[verifier::external_body]
fn random_nonce() -> Option<[u8; 12]> {
    let mut nonce = [0u8; 12];
    aes_gcm::aead::rand_core::RngCore::try_fill_bytes(&mut aes_gcm::aead::OsRng, &mut nonce).ok().map(|_| nonce)
}

/// `encode` of base64's `STANDARD` engine. The result is the encoding by
/// definition of its name; it decodes to the input again, and it holds no
/// colon, since the alphabet is letters, digits, `+`, `/` and the padding `=`.
/// The call panics where the encoded length overflows, which the precondition
/// leaves out.
#[verifier::external_body]
fn base64_encode_bytes(bytes: &[u8]) -> (text: String)
    requires
        bytes@.len() <= 0x1000_0000,
    ensures
        text@ == base64_encode(bytes@),
        base64_decode(text@) == Some(bytes@),
        forall|i: int| 0 <= i < text@.len() ==> text@[i] != ':',
{
    base64::Engine::encode(&base64::engine::general_purpose::STANDARD, bytes)
}

/// `decode` of base64's `STANDARD` engine. The result is the decoding by
/// definition of its name, `None` standing for the crate's error.
#[verifier::external_body]
fn base64_decode_text(text: &str) -> (bytes: Option<Vec<u8>>)
    ensures
        bytes is Some == base64_decode(text@) is Some,
        bytes matches Some(b) ==> base64_decode(text@) == Some(b@),
{
    base64::Engine::decode(&base64::engine::general_purpose::STANDARD, text).ok()
}

/// `encrypt` of `aes_gcm::Aes256Gcm` with no associated data. It fails
/// exactly on a plaintext longer than the cipher's limit. The ciphertext is
/// the encryption by definition of its name; it is the plaintext's length
/// plus the tag's, and decrypts to the plaintext under the same key and
/// nonce.
#[verifier::external_body]
fn aes_gcm_encrypt(key: &[u8; 32], nonce: &[u8; 12], plaintext: &[u8]) -> (sealed: Option<Vec<u8>>)
    ensures
        sealed is Some <==> plaintext@.len() <= MAX_PLAINTEXT_BYTES,
        sealed matches Some(c) ==> {
            &&& c@ == aes256_gcm_encrypt(key@, nonce@, plaintext@)
            &&& c@.len() == plaintext@.len() + TAG_LEN
            &&& aes256_gcm_decrypt(key@, nonce@, c@) == Some(plaintext@)
        },
{
    let cipher = <aes_gcm::Aes256Gcm as aes_gcm::KeyInit>::new(aes_gcm::Key::<aes_gcm::Aes256Gcm>::from_slice(key));
    aes_gcm::aead::Aead::encrypt(&cipher, aes_gcm::Nonce::from_slice(nonce), plaintext).ok()
}

/// `decrypt` of `aes_gcm::Aes256Gcm` with no associated data. The result is
/// the decryption by definition of its name, `None` standing for the crate's
/// error. The nonce is copied into a 12-byte array, which panics on another
/// length: the precondition leaves that out.
#[verifier::external_body]
fn aes_gcm_decrypt(key: &[u8; 32], nonce: &[u8], ciphertext: &[u8]) -> (opened: Option<Vec<u8>>)
    requires
        nonce@.len() == NONCE_LEN,
    ensures
        opened is Some == aes256_gcm_decrypt(key@, nonce@, ciphertext@) is Some,
        opened matches Some(p) ==> aes256_gcm_decrypt(key@, nonce@, ciphertext@) == Some(p@),
{
    let cipher = <aes_gcm::Aes256Gcm as aes_gcm::KeyInit>::new(aes_gcm::Key::<aes_gcm::Aes256Gcm>::from_slice(key));
    aes_gcm::aead::Aead::decrypt(&cipher, aes_gcm::Nonce::from_slice(nonce), ciphertext).ok()
}

/// Why a master key could not be created.
#[derive(Clone, Copy, Debug, PartialEq, Eq, Structural)]
pub enum KeyError {
    /// The passphrase is longer than `MAX_PASSPHRASE_BYTES`.
    PassphraseTooLong,
    /// The system's random source gave no salt.
    NoEntropy,
}

/// Why the textual form of a master key record was refused.
#[derive(Clone, Copy, Debug, PartialEq, Eq, Structural)]
pub enum FormatError {
    /// There is no colon, so the text has fewer than two parts.
    MissingField,
    /// A part is not base64.
    InvalidEncoding,
    /// The salt is not 16 bytes, or the key is not 32.
    BadLength,
}

/// A blob did not open: wrong key, changed bytes, or too short to hold a
/// nonce and a tag.
#[derive(Clone, Copy, Debug, PartialEq, Eq, Structural)]
pub struct AuthFailure;

/// Why a buffer could not be sealed.
#[derive(Clone, Copy, Debug, PartialEq, Eq, Structural)]
pub enum SealError {
    /// The plaintext is longer than `MAX_PLAINTEXT_BYTES`.
    PlaintextTooLong,
    /// The system's random source gave no nonce.
    NoEntropy,
}

/// The key derived from a passphrase under a salt.
pub open spec fn derived_key(salt: Seq<u8>, passphrase: Seq<char>) -> Seq<u8> {
    pbkdf2_hmac_sha256(PBKDF2_ITERATIONS, salt, encode_utf8(passphrase), CREDENTIAL_LEN as nat)
}

/// Whether a passphrase is short enough to be derived from.
pub open spec fn passphrase_fits(passphrase: Seq<char>) -> bool {
    encode_utf8(passphrase).len() <= MAX_PASSPHRASE_BYTES
}

/// The textual form of a key record: both parts in base64, a colon between.
pub open spec fn record_text(salt: Seq<u8>, key: Seq<u8>) -> Seq<char> {
    base64_encode(salt) + seq![':'] + base64_encode(key)
}

/// What a text is read as: the salt and the key of a record, or the reason
/// for refusing it. The first part ends at the first colon, the second at
/// the next colon or at the end of the text.
pub open spec fn parsed_record(text: Seq<char>) -> Result<(Seq<u8>, Seq<u8>), FormatError> {
    let first = first_index_of(text, ':');
    if first == text.len() {
        Err(FormatError::MissingField)
    } else {
        let rest = text.skip(first + 1);
        let salt = base64_decode(text.take(first));
        let key = base64_decode(rest.take(first_index_of(rest, ':')));
        if salt is None || key is None {
            Err(FormatError::InvalidEncoding)
        } else if salt->0.len() != SALT_LEN || key->0.len() != CREDENTIAL_LEN {
            Err(FormatError::BadLength)
        } else {
            Ok((salt->0, key->0))
        }
    }
}

/// The bytes of a sealed blob: the nonce, then the ciphertext with its tag.
pub open spec fn sealed_blob(key: Seq<u8>, nonce: Seq<u8>, plaintext: Seq<u8>) -> Seq<u8> {
    nonce + aes256_gcm_encrypt(key, nonce, plaintext)
}

/// Whether `blob` is `plaintext` sealed under `key`: a nonce of 12 bytes, then
/// the encryption of the plaintext under the key and that nonce with its tag
/// of 16 bytes, so that the blob opens to the plaintext again.
pub open spec fn is_sealed(key: Seq<u8>, plaintext: Seq<u8>, blob: Seq<u8>) -> bool {
    &&& exists|nonce: Seq<u8>| nonce.len() == NONCE_LEN && blob == #[trigger] sealed_blob(key, nonce, plaintext)
    &&& blob.len() == NONCE_LEN + plaintext.len() + TAG_LEN
    &&& opened_blob(key, blob) == Some(plaintext)
}

/// What a blob opens to under a key: the first 12 bytes are the nonce, the
/// rest is decrypted and authenticated. A blob shorter than a nonce opens to
/// nothing.
pub open spec fn opened_blob(key: Seq<u8>, blob: Seq<u8>) -> Option<Seq<u8>> {
    if blob.len() < NONCE_LEN {
        None
    } else {
        aes256_gcm_decrypt(key, blob.take(NONCE_LEN as int), blob.skip(NONCE_LEN as int))
    }
}

/// A master key record: the salt and the key derived from the passphrase under
/// it. The key is used as it is as the cipher's key.
pub struct PasswordEncryption {
    salt: [u8; 16],
    encrypted_string: [u8; 32],
}

impl PasswordEncryption {
    /// The salt of the record.
    pub closed spec fn salt(&self) -> Seq<u8> {
        self.salt@
    }

    /// The derived key of the record.
    pub closed spec fn key(&self) -> Seq<u8> {
        self.encrypted_string@
    }

    /// Whether the record was derived from this passphrase.
    pub open spec fn accepts(&self, passphrase: Seq<char>) -> bool {
        passphrase_fits(passphrase) && self.key() == derived_key(self.salt(), passphrase)
    }

    /// The salt is 16 bytes and the key 32, always.
    pub proof fn lemma_lengths(&self)
        ensures
            self.salt().len() == SALT_LEN,
            self.key().len() == CREDENTIAL_LEN,
    {
    }

    /// The record of a passphrase under a given salt. It accepts that
    /// passphrase. A passphrase that is too long gives no record.
    pub fn derive_with_salt(string: &str, salt: [u8; 16]) -> (record: Result<Self, KeyError>)
        ensures
            match record {
                Ok(r) => {
                    &&& passphrase_fits(string@)
                    &&& r.salt() == salt@
                    &&& r.key() == derived_key(salt@, string@)
                    &&& r.accepts(string@)
                },
                Err(e) => e == KeyError::PassphraseTooLong && !passphrase_fits(string@),
            },
    {
        let secret = string.as_bytes();
        if secret.len() as u64 > MAX_PASSPHRASE_BYTES {
            return Err(KeyError::PassphraseTooLong);
        }
        let encrypted_string = pbkdf2_derive(PBKDF2_ITERATIONS, &salt, secret);
        Ok(PasswordEncryption { salt, encrypted_string })
    }

    /// A new record for a passphrase, under a fresh random salt. Whatever the
    /// salt, the record accepts the passphrase it was made from. It fails on
    /// a passphrase that is too long, and where the system gives no random
    /// bytes.
    pub fn generate_new(string: &str) -> (record: Result<Self, KeyError>)
        ensures
            match record {
                Ok(r) => {
                    &&& passphrase_fits(string@)
                    &&& r.key() == derived_key(r.salt(), string@)
                    &&& r.accepts(string@)
                },
                Err(KeyError::PassphraseTooLong) => !passphrase_fits(string@),
                Err(KeyError::NoEntropy) => passphrase_fits(string@),
            },
    {
        if string.as_bytes().len() as u64 > MAX_PASSPHRASE_BYTES {
            return Err(KeyError::PassphraseTooLong);
        }
        match Self::generate_salt() {
            Some(salt) => Self::derive_with_salt(string, salt),
            None => Err(KeyError::NoEntropy),
        }
    }

    /// Reads a record from its textual form.
    pub fn create_from_string(string: String) -> (record: Result<Self, FormatError>)
        ensures
            match record {
                Ok(r) => parsed_record(string@) == Ok::<_, FormatError>((r.salt(), r.key())),
                Err(e) => parsed_record(string@) == Err::<(Seq<u8>, Seq<u8>), _>(e),
            },
    {
        let text = chars_of(string.as_str());
        let first = find_char(&text, 0, ':');
        assert(text@.skip(0) =~= text@);
        if first == text.len() {
            return Err(FormatError::MissingField);
        }
        let second = find_char(&text, first + 1, ':');
        let salt_text = string_of(&slice_chars(&text, 0, first));
        let key_text = string_of(&slice_chars(&text, first + 1, second));
        proof {
            let rest = text@.skip(first + 1);
            assert(rest.take(first_index_of(rest, ':')) =~= text@.subrange(first + 1, second as int));
            assert(text@.take(first as int) =~= text@.subrange(0, first as int));
        }
        let salt_bytes = base64_decode_text(salt_text.as_str());
        let key_bytes = base64_decode_text(key_text.as_str());
        match (salt_bytes, key_bytes) {
            (Some(salt_vec), Some(key_vec)) => {
                if salt_vec.len() != SALT_LEN || key_vec.len() != CREDENTIAL_LEN {
                    return Err(FormatError::BadLength);
                }
                let salt = salt_array(&salt_vec);
                let encrypted_string = key_array(&key_vec);
                Ok(PasswordEncryption { salt, encrypted_string })
            },
            _ => Err(FormatError::InvalidEncoding),
        }
    }

    /// The derived key, which opens and seals the database.
    pub fn get_encrypted_string(&self) -> (key: [u8; 32])
        ensures
            key@ == self.key(),
    {
        self.encrypted_string
    }

    /// The textual form of the record. Reading it gives the record back.
    pub fn create_string(&self) -> (text: String)
        ensures
            text@ == record_text(self.salt(), self.key()),
            parsed_record(text@) == Ok::<_, FormatError>((self.salt(), self.key())),
    {
        let salt_encoded = base64_encode_bytes(self.salt.as_slice());
        let pwd_encoded = base64_encode_bytes(self.encrypted_string.as_slice());
        let mut text = salt_encoded.clone();
        text.push(':');
        let text = text.concat(pwd_encoded.as_str());
        proof {
            let s = salt_encoded@;
            let k = pwd_encoded@;
            assert(text@ =~= s + seq![':'] + k);
            crate::text::lemma_first_index_of_at(text@, ':', s.len() as int);
            let rest = text@.skip(s.len() as int + 1);
            assert(rest =~= k);
            crate::text::lemma_first_index_of_absent(k, ':');
            assert(text@.take(s.len() as int) =~= s);
            assert(rest.take(k.len() as int) =~= k);
        }
        text
    }

    /// Whether the record was derived from this passphrase. The comparison of
    /// the keys takes the same time whatever they hold.
    pub fn verify_string(&self, string: &str) -> (accepted: bool)
        ensures
            accepted == self.accepts(string@),
    {
        let secret = string.as_bytes();
        if secret.len() as u64 > MAX_PASSPHRASE_BYTES {
            return false;
        }
        pbkdf2_verify(PBKDF2_ITERATIONS, &self.salt, secret, &self.encrypted_string)
    }

    fn generate_salt() -> Option<[u8; 16]> {
        random_salt()
    }
}

/// The 16 bytes of `bytes` as an array.
fn salt_array(bytes: &Vec<u8>) -> (out: [u8; 16])
    requires
        bytes@.len() == SALT_LEN,
    ensures
        out@ == bytes@,
{
    let mut out = [0u8; 16];
    let mut i: usize = 0;
    while i < SALT_LEN
        invariant
            i <= SALT_LEN,
            bytes@.len() == SALT_LEN,
            forall|k: int| 0 <= k < i ==> out@[k] == bytes@[k],
        decreases SALT_LEN - i,
    {
        out[i] = bytes[i];
        i += 1;
    }
    assert(out@ =~= bytes@);
    out
}

/// The 32 bytes of `bytes` as an array.
fn key_array(bytes: &Vec<u8>) -> (out: [u8; 32])
    requires
        bytes@.len() == CREDENTIAL_LEN,
    ensures
        out@ == bytes@,
{
    let mut out = [0u8; 32];
    let mut i: usize = 0;
    while i < CREDENTIAL_LEN
        invariant
            i <= CREDENTIAL_LEN,
            bytes@.len() == CREDENTIAL_LEN,
            forall|k: int| 0 <= k < i ==> out@[k] == bytes@[k],
        decreases CREDENTIAL_LEN - i,
    {
        out[i] = bytes[i];
        i += 1;
    }
    assert(out@ =~= bytes@);
    out
}

/// Seals a plaintext under a key and a given nonce. The blob opens to the
/// plaintext again under the same key. It fails exactly on a plaintext that
/// is too long.
pub fn seal_with_nonce(key: &[u8; 32], nonce: &[u8; 12], plaintext: &[u8]) -> (blob: Result<Vec<u8>, SealError>)
    ensures
        match blob {
            Ok(b) => {
                &&& plaintext@.len() <= MAX_PLAINTEXT_BYTES
                &&& b@ == sealed_blob(key@, nonce@, plaintext@)
                &&& b@.len() == NONCE_LEN + plaintext@.len() + TAG_LEN
                &&& opened_blob(key@, b@) == Some(plaintext@)
            },
            Err(e) => e == SealError::PlaintextTooLong && plaintext@.len() > MAX_PLAINTEXT_BYTES,
        },
{
    match aes_gcm_encrypt(key, nonce, plaintext) {
        Some(ciphertext) => {
            let mut blob: Vec<u8> = Vec::new();
            let mut i: usize = 0;
            while i < NONCE_LEN
                invariant
                    i <= NONCE_LEN,
                    blob@ == nonce@.take(i as int),
                decreases NONCE_LEN - i,
            {
                blob.push(nonce[i]);
                i += 1;
            }
            let ghost sealed = ciphertext@;
            let mut ciphertext = ciphertext;
            blob.append(&mut ciphertext);
            proof {
                assert(nonce@.take(NONCE_LEN as int) =~= nonce@);
                assert(blob@ =~= nonce@ + sealed);
                assert(blob@.take(NONCE_LEN as int) =~= nonce@);
                assert(blob@.skip(NONCE_LEN as int) =~= sealed);
            }
            Ok(blob)
        },
        None => Err(SealError::PlaintextTooLong),
    }
}

/// Seals a plaintext under a key, with a fresh random nonce for each call.
/// Whatever the nonce, the blob opens to the plaintext again under the same
/// key.
pub fn seal(key: &[u8; 32], plaintext: &[u8]) -> (blob: Result<Vec<u8>, SealError>)
    ensures
        match blob {
            Ok(b) => {
                &&& plaintext@.len() <= MAX_PLAINTEXT_BYTES
                &&& exists|nonce: Seq<u8>| nonce.len() == NONCE_LEN && b@ == #[trigger] sealed_blob(key@, nonce, plaintext@)
                &&& b@.len() == NONCE_LEN + plaintext@.len() + TAG_LEN
                &&& opened_blob(key@, b@) == Some(plaintext@)
            },
            Err(SealError::PlaintextTooLong) => plaintext@.len() > MAX_PLAINTEXT_BYTES,
            Err(SealError::NoEntropy) => plaintext@.len() <= MAX_PLAINTEXT_BYTES,
        },
{
    if plaintext.len() as u64 > MAX_PLAINTEXT_BYTES {
        return Err(SealError::PlaintextTooLong);
    }
    match random_nonce() {
        Some(nonce) => {
            let blob = seal_with_nonce(key, &nonce, plaintext);
            proof {
                if blob is Ok {
                    assert(blob->Ok_0@ == sealed_blob(key@, nonce@, plaintext@));
                }
            }
            blob
        },
        None => Err(SealError::NoEntropy),
    }
}

/// Opens a sealed blob under a key: the plaintext where the blob is
/// authentic, `AuthFailure` where it is not or is too short.
pub fn load_encrypted_db(encrypted_db: Vec<u8>, encryption_key: &[u8; 32]) -> (plaintext: Result<Vec<u8>, AuthFailure>)
    ensures
        match plaintext {
            Ok(p) => opened_blob(encryption_key@, encrypted_db@) == Some(p@),
            Err(_) => opened_blob(encryption_key@, encrypted_db@) is None,
        },
{
    if encrypted_db.len() < NONCE_LEN {
        return Err(AuthFailure);
    }
    let bytes = encrypted_db.as_slice();
    let nonce = slice_subrange(bytes, 0, NONCE_LEN);
    let ciphertext = slice_subrange(bytes, NONCE_LEN, bytes.len());
    proof {
        assert(nonce@ =~= encrypted_db@.take(NONCE_LEN as int));
        assert(ciphertext@ =~= encrypted_db@.skip(NONCE_LEN as int));
    }
    match aes_gcm_decrypt(encryption_key, nonce, ciphertext) {
        Some(p) => Ok(p),
        None => Err(AuthFailure),
    }
}

} // verus!
