use stassh::db_crypto::{decrypt_db, derive_key, encrypt_db, seal_payload, EncryptedPayload};

const DOC: &[u8] = br#"{"hosts":[],"next_host_id":1}"#;

#[test]
fn encrypted_document_decrypts_back() {
    let payload = encrypt_db(DOC, "correct horse").unwrap();
    assert_eq!(decrypt_db("correct horse", &payload).unwrap(), DOC.to_vec());
    // 16 salt bytes and 12 nonce bytes in standard padded base64.
    assert_eq!(payload.salt_b64.len(), 24);
    assert!(payload.salt_b64.ends_with("=="));
    assert_eq!(payload.nonce_b64.len(), 16);
}

#[test]
fn wrong_passphrase_is_refused() {
    let payload = encrypt_db(DOC, "correct horse").unwrap();
    assert_eq!(
        decrypt_db("battery staple", &payload),
        Err("failed to decrypt database (wrong passphrase or corrupt file)".to_string())
    );
}

#[test]
fn sealing_is_fixed_by_salt_and_nonce() {
    let salt = [7u8; 16];
    let nonce = [9u8; 12];
    let a = seal_payload(DOC, "pw", &salt, &nonce).unwrap();
    let b = seal_payload(DOC, "pw", &salt, &nonce).unwrap();
    assert_eq!(a.ciphertext_b64, b.ciphertext_b64);
    assert_eq!(a.salt_b64, "BwcHBwcHBwcHBwcHBwcHBw==");
    assert_eq!(a.nonce_b64, "CQkJCQkJCQkJCQkJ");
    assert_ne!(a.ciphertext_b64, seal_payload(DOC, "other", &salt, &nonce).unwrap().ciphertext_b64);
    assert_eq!(decrypt_db("pw", &a).unwrap(), DOC.to_vec());
}

#[test]
fn short_salt_cannot_make_a_key() {
    let err = derive_key("pw", &[1, 2, 3, 4]).unwrap_err();
    assert!(err.starts_with("failed to derive key from passphrase: "));
    let key = derive_key("pw", &[1u8; 16]).unwrap();
    assert_eq!(key.len(), 32);
    assert_eq!(key, derive_key("pw", &[1u8; 16]).unwrap());
}

#[test]
fn damaged_payload_parts_are_named() {
    let good = encrypt_db(DOC, "pw").unwrap();
    let bad_salt = EncryptedPayload { salt_b64: "***".to_string(), ..good.clone() };
    assert_eq!(decrypt_db("pw", &bad_salt), Err("invalid db salt encoding".to_string()));
    let bad_nonce = EncryptedPayload { nonce_b64: "%%".to_string(), ..good.clone() };
    assert_eq!(decrypt_db("pw", &bad_nonce), Err("invalid db nonce encoding".to_string()));
    let bad_text = EncryptedPayload { ciphertext_b64: "!".to_string(), ..good.clone() };
    assert_eq!(decrypt_db("pw", &bad_text), Err("invalid db ciphertext encoding".to_string()));
    let short_nonce = EncryptedPayload { nonce_b64: "AAAA".to_string(), ..good };
    assert_eq!(decrypt_db("pw", &short_nonce), Err("invalid db nonce length".to_string()));
}
