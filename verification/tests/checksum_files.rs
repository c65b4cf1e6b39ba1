use stassh::checksum::{check_digest, expected_checksum, hex_lower, is_gzip, sha256_hex, verify_archive_checksum};

const HELLO_SHA256: &str = "2cf24dba5fb0a30e26e83b2ac5b9e29e1b161e5c1fa7425e73043362938b9824";

#[test]
fn checksum_lines_are_matched_by_file_name() {
    let text = "abc other.tar.gz\r\nDEADBEEF *stassh.tar.gz\nffff stassh.tar.gz\n";
    assert_eq!(expected_checksum(text, "stassh.tar.gz").as_deref(), Some("deadbeef"));
    assert_eq!(expected_checksum(text, "other.tar.gz").as_deref(), Some("abc"));
    assert_eq!(expected_checksum(text, "missing"), None);
    assert_eq!(expected_checksum("", "x"), None);
    assert_eq!(expected_checksum("   onlyhash\n", "onlyhash"), None);
    assert_eq!(expected_checksum("  AbC  \t **file  trailing", "file").as_deref(), Some("abc"));
}

#[test]
fn digest_is_lower_case_hex() {
    assert_eq!(hex_lower(&[0x00, 0x0f, 0xa0, 0xff]), "000fa0ff");
    assert_eq!(sha256_hex(b"hello"), HELLO_SHA256);
    assert_eq!(sha256_hex(b"hello").len(), 64);
}

#[test]
fn archive_checksum_verdicts() {
    let list = format!("{} stassh.tar.gz\n", HELLO_SHA256.to_uppercase());
    assert_eq!(verify_archive_checksum(b"hello", "stassh.tar.gz", &list), Ok(()));
    let err = verify_archive_checksum(b"hellp", "stassh.tar.gz", &list).unwrap_err();
    assert!(err.starts_with(&format!("checksum mismatch for stassh.tar.gz (expected {HELLO_SHA256}, got ")));
    assert_eq!(
        verify_archive_checksum(b"hello", "other", &list).unwrap_err(),
        "no checksum entry for asset other"
    );
    assert_eq!(check_digest("ab", "f", "AB f"), Ok(()));
    assert_eq!(
        check_digest("ab", "f", "cd f").unwrap_err(),
        "checksum mismatch for f (expected cd, got ab)"
    );
}

#[test]
fn gzip_magic_is_recognised() {
    assert!(is_gzip(&[0x1f, 0x8b, 0x08]));
    assert!(!is_gzip(&[0x1f]));
    assert!(!is_gzip(b"PK\x03\x04"));
}
