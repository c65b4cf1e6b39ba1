//! Passphrase encryption of the database document: a key stretched from the
//! passphrase with Argon2 over a random salt, the document sealed with
//! AES-256-GCM under a random nonce, and each part kept as base64 text.
//!
//! The key stretching, the cipher and the random source are the outside
//! crates' work, behind the items marked below; the framing around them is
//! verified, and so is reading back what was written.

use vstd::prelude::*;
use aes_gcm::aead::{Aead, KeyInit};
use rand::RngCore;
use crate::backup::{base64_decode, base64_encode, decode_base64, encode_base64};
use crate::text::concat_str;

verus! {

/// An encrypted database document: the salt, the nonce and the sealed
/// document, each as base64 text.
#[derive(Clone, Debug)]
pub struct EncryptedPayload {
    pub salt_b64: String,
    pub nonce_b64: String,
    pub ciphertext_b64: String,
}

/// The mathematical value of an `EncryptedPayload`.
pub struct PayloadView {
    pub salt: Seq<char>,
    pub nonce: Seq<char>,
    pub ciphertext: Seq<char>,
}

impl View for EncryptedPayload {
    type V = PayloadView;

    open spec fn view(&self) -> PayloadView {
        PayloadView { salt: self.salt_b64@, nonce: self.nonce_b64@, ciphertext: self.ciphertext_b64@ }
    }
}

/// The length of a key, in bytes.
pub const KEY_LEN: usize = 32;

/// The length of a salt, in bytes.
pub const SALT_LEN: usize = 16;

/// The length of a nonce, in bytes.
pub const NONCE_LEN: usize = 12;

/// The longest document the cipher seals, in bytes.
pub open spec fn max_plaintext_len() -> int {
    0x10_0000_0000
}

/// Whether Argon2 with its default parameters takes a password and salt:
/// a password of at most `0xFFFF_FFFF` bytes and a salt of 8 to
/// `0xFFFF_FFFF` bytes.
pub open spec fn argon2_accepts(password: Seq<u8>, salt: Seq<u8>) -> bool {
    password.len() <= 0xFFFF_FFFF && 8 <= salt.len() <= 0xFFFF_FFFF
}

/// What `Argon2::default().hash_password_into` gives for a password and a
/// salt into a 32-byte output: the key, or the text of its error.
pub uninterp spec fn argon2_output(password: Seq<u8>, salt: Seq<u8>) -> Result<Seq<u8>, Seq<char>>;

/// What `Aes256Gcm::encrypt` gives for a key, a nonce and a plaintext: the
/// ciphertext with its tag, or nothing when it refuses.
pub uninterp spec fn aes_gcm_seal(key: Seq<u8>, nonce: Seq<u8>, plaintext: Seq<u8>) -> Option<Seq<u8>>;

/// What `Aes256Gcm::decrypt` gives for a key, a nonce and a ciphertext: the
/// plaintext, or nothing when the tag does not match.
pub uninterp spec fn aes_gcm_open(key: Seq<u8>, nonce: Seq<u8>, ciphertext: Seq<u8>) -> Option<Seq<u8>>;

/// Stretches a password into a 32-byte key with
/// `argon2::Argon2::default().hash_password_into`.
///
/// The result is the named one. The crate's source checks only the lengths
/// (output, password, salt) before hashing; the contract states that a
/// password and salt within its limits give a key, and that a key has 32
/// bytes.
#[verifier::external_body]
fn argon2_hash(password: &[u8], salt: &[u8]) -> (r: Result<Vec<u8>, String>)
    ensures
        match r {
            Ok(k) => argon2_output(password@, salt@) == Ok::<Seq<u8>, Seq<char>>(k@) && k@.len() == 32,
            Err(e) => argon2_output(password@, salt@) == Err::<Seq<u8>, Seq<char>>(e@),
        },
        r is Ok <==> argon2_accepts(password@, salt@),
{
    let mut key = [0u8; 32];
    match argon2::Argon2::default().hash_password_into(password, salt, &mut key) {
        Ok(()) => Ok(key.to_vec()),
        Err(e) => Err(e.to_string()),
    }
}

/// Seals a plaintext with `aes_gcm::Aes256Gcm::encrypt`.
///
/// The result is the named one. The crate refuses only plaintexts longer
/// than 2^36 bytes; a ciphertext is the plaintext's length plus the 16-byte
/// tag, and decrypting it with the same key and nonce gives the plaintext
/// back. The contract states those facts.
#[verifier::external_body]
fn aes_gcm_encrypt(key: &[u8], nonce: &[u8], plaintext: &[u8]) -> (r: Option<Vec<u8>>)
    requires
        key@.len() == 32,
        nonce@.len() == 12,
    ensures
        match r {
            Some(c) => aes_gcm_seal(key@, nonce@, plaintext@) == Some(c@),
            None => aes_gcm_seal(key@, nonce@, plaintext@) is None,
        },
        r is Some <==> plaintext@.len() <= max_plaintext_len(),
        r matches Some(c) ==> c@.len() == plaintext@.len() + 16,
        r matches Some(c) ==> aes_gcm_open(key@, nonce@, c@) == Some(plaintext@),
{
    let cipher = aes_gcm::Aes256Gcm::new(aes_gcm::Key::<aes_gcm::Aes256Gcm>::from_slice(key));
    cipher.encrypt(aes_gcm::Nonce::from_slice(nonce), plaintext).ok()
}

/// Opens a ciphertext with `aes_gcm::Aes256Gcm::decrypt`; the result is the
/// named one.
#[verifier::external_body]
fn aes_gcm_decrypt(key: &[u8], nonce: &[u8], ciphertext: &[u8]) -> (r: Option<Vec<u8>>)
    requires
        key@.len() == 32,
        nonce@.len() == 12,
    ensures
        match r {
            Some(p) => aes_gcm_open(key@, nonce@, ciphertext@) == Some(p@),
            None => aes_gcm_open(key@, nonce@, ciphertext@) is None,
        },
{
    let cipher = aes_gcm::Aes256Gcm::new(aes_gcm::Key::<aes_gcm::Aes256Gcm>::from_slice(key));
    cipher.decrypt(aes_gcm::Nonce::from_slice(nonce), ciphertext).ok()
}

/// `len` bytes from the operating system's random source
/// (`rand::rngs::OsRng::try_fill_bytes`), or nothing when it fails. Only
/// the length is stated: the bytes are random.
#[verifier::external_body]
pub(crate) fn random_bytes(len: usize) -> (r: Option<Vec<u8>>)
    ensures
        r matches Some(v) ==> v@.len() == len,
{
    let mut buf = vec![0u8; len];
    rand::rngs::OsRng.try_fill_bytes(&mut buf).ok().map(|_| buf)
}

/// The start of the message for a key that could not be made.
pub open spec fn derive_error(e: Seq<char>) -> Seq<char> {
    "failed to derive key from passphrase: "@ + e
}

/// The key a passphrase and salt give, or the error message.
pub open spec fn derive_spec(passphrase: Seq<char>, salt: Seq<u8>) -> Result<Seq<u8>, Seq<char>> {
    match argon2_output(vstd::utf8::encode_utf8(passphrase), salt) {
        Ok(k) => Ok(k),
        Err(e) => Err(derive_error(e)),
    }
}

/// Stretches a passphrase (its UTF-8 bytes) and a salt into a 32-byte key.
pub fn derive_key(passphrase: &str, salt: &[u8]) -> (r: Result<Vec<u8>, String>)
    ensures
        match r {
            Ok(k) => derive_spec(passphrase@, salt@) == Ok::<Seq<u8>, Seq<char>>(k@) && k@.len() == 32,
            Err(e) => derive_spec(passphrase@, salt@) == Err::<Seq<u8>, Seq<char>>(e@),
        },
        r is Ok <==> argon2_accepts(vstd::utf8::encode_utf8(passphrase@), salt@),
{
    match argon2_hash(passphrase.as_bytes(), salt) {
        Ok(k) => Ok(k),
        Err(e) => Err(concat_str("failed to derive key from passphrase: ", e.as_str())),
    }
}

/// What sealing a document under a passphrase with a given salt and nonce
/// gives: the payload, or the error message.
pub open spec fn seal_spec(
    plaintext: Seq<u8>,
    passphrase: Seq<char>,
    salt: Seq<u8>,
    nonce: Seq<u8>,
) -> Result<PayloadView, Seq<char>> {
    match derive_spec(passphrase, salt) {
        Err(e) => Err(e),
        Ok(key) => match aes_gcm_seal(key, nonce, plaintext) {
            None => Err("failed to encrypt database"@),
            Some(c) => Ok(PayloadView { salt: base64_encode(salt), nonce: base64_encode(nonce), ciphertext: base64_encode(c) }),
        },
    }
}

/// What decrypting a payload with a passphrase gives: the document, or the
/// error message.
pub open spec fn open_spec(passphrase: Seq<char>, p: PayloadView) -> Result<Seq<u8>, Seq<char>> {
    match base64_decode(p.salt) {
        None => Err("invalid db salt encoding"@),
        Some(salt) => match base64_decode(p.nonce) {
            None => Err("invalid db nonce encoding"@),
            Some(nonce) => match base64_decode(p.ciphertext) {
                None => Err("invalid db ciphertext encoding"@),
                Some(c) => if nonce.len() != 12 {
                    Err("invalid db nonce length"@)
                } else {
                    match derive_spec(passphrase, salt) {
                        Err(e) => Err(e),
                        Ok(key) => match aes_gcm_open(key, nonce, c) {
                            None => Err("failed to decrypt database (wrong passphrase or corrupt file)"@),
                            Some(doc) => Ok(doc),
                        },
                    }
                },
            },
        },
    }
}

/// Seals a document (the database's JSON bytes) under a passphrase with the
/// given salt and nonce. A sealed payload decrypts back to the document.
pub fn seal_payload(plaintext: &[u8], passphrase: &str, salt: &[u8], nonce: &[u8]) -> (r: Result<EncryptedPayload, String>)
    requires
        nonce@.len() == 12,
    ensures
        match r {
            Ok(p) => seal_spec(plaintext@, passphrase@, salt@, nonce@) == Ok::<PayloadView, Seq<char>>(p@),
            Err(e) => seal_spec(plaintext@, passphrase@, salt@, nonce@) == Err::<PayloadView, Seq<char>>(e@),
        },
        r is Ok <==> argon2_accepts(vstd::utf8::encode_utf8(passphrase@), salt@)
            && plaintext@.len() <= max_plaintext_len(),
        r matches Ok(p) ==> open_spec(passphrase@, p@) == Ok::<Seq<u8>, Seq<char>>(plaintext@),
{
    let key = match derive_key(passphrase, salt) {
        Ok(k) => k,
        Err(e) => return Err(e),
    };
    let sealed = match aes_gcm_encrypt(&key, nonce, plaintext) {
        Some(c) => c,
        None => return Err("failed to encrypt database".to_string()),
    };
    let salt_b64 = encode_base64(salt);
    let nonce_b64 = encode_base64(nonce);
    let ciphertext_b64 = encode_base64(&sealed);
    let p = EncryptedPayload { salt_b64, nonce_b64, ciphertext_b64 };
    proof {
        reveal_strlit("failed to encrypt database");
        assert(base64_decode(p.salt_b64@) == Some(salt@));
        assert(base64_decode(p.nonce_b64@) == Some(nonce@));
        assert(base64_decode(p.ciphertext_b64@) == Some(sealed@));
    }
    Ok(p)
}

/// Encrypts a document (the database's JSON bytes) under a passphrase, with
/// a fresh random salt and nonce. Whatever the random bytes, a payload that
/// comes back is the document sealed under some salt of `SALT_LEN` bytes
/// and some nonce of `NONCE_LEN` bytes, and decrypts with the same
/// passphrase to the document; an error comes only from the random source,
/// a passphrase or document too long for the key stretching or the cipher.
pub fn encrypt_db(plaintext: &[u8], passphrase: &str) -> (r: Result<EncryptedPayload, String>)
    ensures
        r matches Ok(p) ==> exists|salt: Seq<u8>, nonce: Seq<u8>|
            salt.len() == SALT_LEN && nonce.len() == NONCE_LEN
                && #[trigger] seal_spec(plaintext@, passphrase@, salt, nonce) == Ok::<PayloadView, Seq<char>>(p@),
        r matches Ok(p) ==> open_spec(passphrase@, p@) == Ok::<Seq<u8>, Seq<char>>(plaintext@),
        r matches Err(e) ==> e@ == "failed to read random bytes"@
            || vstd::utf8::encode_utf8(passphrase@).len() > 0xFFFF_FFFF
            || plaintext@.len() > max_plaintext_len(),
{
    let salt = match random_bytes(SALT_LEN) {
        Some(s) => s,
        None => return Err("failed to read random bytes".to_string()),
    };
    let nonce = match random_bytes(NONCE_LEN) {
        Some(n) => n,
        None => return Err("failed to read random bytes".to_string()),
    };
    proof {
        reveal_strlit("failed to read random bytes");
    }
    seal_payload(plaintext, passphrase, &salt, &nonce)
}

/// Decrypts a payload with a passphrase, giving back the database's JSON
/// bytes; each part must be valid base64, the nonce 12 bytes, and the
/// passphrase the one the payload was sealed under.
pub fn decrypt_db(passphrase: &str, payload: &EncryptedPayload) -> (r: Result<Vec<u8>, String>)
    ensures
        match r {
            Ok(doc) => open_spec(passphrase@, payload@) == Ok::<Seq<u8>, Seq<char>>(doc@),
            Err(e) => open_spec(passphrase@, payload@) == Err::<Seq<u8>, Seq<char>>(e@),
        },
{
    proof {
        reveal_strlit("invalid db salt encoding");
        reveal_strlit("invalid db nonce encoding");
        reveal_strlit("invalid db ciphertext encoding");
        reveal_strlit("invalid db nonce length");
        reveal_strlit("failed to decrypt database (wrong passphrase or corrupt file)");
    }
    let salt = match decode_base64(payload.salt_b64.as_str()) {
        Some(s) => s,
        None => return Err("invalid db salt encoding".to_string()),
    };
    let nonce = match decode_base64(payload.nonce_b64.as_str()) {
        Some(n) => n,
        None => return Err("invalid db nonce encoding".to_string()),
    };
    let ciphertext = match decode_base64(payload.ciphertext_b64.as_str()) {
        Some(c) => c,
        None => return Err("invalid db ciphertext encoding".to_string()),
    };
    if nonce.len() != NONCE_LEN {
        return Err("invalid db nonce length".to_string());
    }
    let key = match derive_key(passphrase, &salt) {
        Ok(k) => k,
        Err(e) => return Err(e),
    };
    match aes_gcm_decrypt(&key, &nonce, &ciphertext) {
        Some(doc) => Ok(doc),
        None => Err("failed to decrypt database (wrong passphrase or corrupt file)".to_string()),
    }
}

} // verus!
