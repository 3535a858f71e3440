//! Protection of secrets at rest.

use dl_voice_typing::crypto::{decrypt, encrypt, is_encrypted, read_sealed, write_sealed};
use dl_voice_typing::error::AppError;

fn protect(s: &str) -> Option<Vec<u8>> {
    Some(s.bytes().rev().map(|b| b ^ 0xA5).collect())
}

fn unprotect(v: Vec<u8>) -> Option<Vec<u8>> {
    Some(v.into_iter().rev().map(|b| b ^ 0xA5).collect())
}

#[test]
fn test_encrypt_decrypt_roundtrip() {
    let original = "sk-test-api-key-12345";
    let encrypted = encrypt(original, &protect).unwrap();
    assert!(encrypted.starts_with("DPAPI:"));
    assert_ne!(encrypted, original);

    let decrypted = decrypt(&encrypted, &unprotect).unwrap();
    assert_eq!(decrypted, original);
}

#[test]
fn test_encrypt_empty_string() {
    let encrypted = encrypt("", &protect).unwrap();
    assert!(is_encrypted(&encrypted));
    let decrypted = decrypt(&encrypted, &unprotect).unwrap();
    assert_eq!(decrypted, "");
}

#[test]
fn test_is_encrypted_true() {
    let encrypted = encrypt("test", &protect).unwrap();
    assert!(is_encrypted(&encrypted));
}

#[test]
fn test_is_encrypted_false() {
    assert!(!is_encrypted("sk-plain-text-key"));
    assert!(!is_encrypted(""));
    assert!(!is_encrypted("random-string"));
}

#[test]
fn test_decrypt_invalid_base64() {
    let result = decrypt("DPAPI:!!!invalid!!!", &unprotect);
    assert!(result.is_err());
}

#[test]
fn test_decrypt_missing_prefix() {
    let result = decrypt("no-prefix-here", &unprotect);
    assert!(result.is_err());
}

#[test]
fn test_encrypt_unicode() {
    let original = "密钥-日本語-한글";
    let encrypted = encrypt(original, &protect).unwrap();
    let decrypted = decrypt(&encrypted, &unprotect).unwrap();
    assert_eq!(decrypted, original);
}

#[test]
fn sealed_bytes_are_written_in_base64() {
    assert_eq!(write_sealed(&vec![1, 2, 3, 255]), "DPAPI:AQID/w==");
    assert_eq!(read_sealed("DPAPI:AQID/w==").unwrap(), vec![1, 2, 3, 255]);
    assert!(matches!(read_sealed("AQID/w=="), Err(AppError::Crypto(m)) if m == "missing DPAPI prefix"));
    assert!(matches!(read_sealed("DPAPI:??"), Err(AppError::Crypto(m)) if m.starts_with("base64 decode failed: ")));
}

#[test]
fn failures_of_the_system_are_reported() {
    let refused = encrypt("x", &|_: &str| -> Option<Vec<u8>> { None });
    assert!(matches!(refused, Err(AppError::Crypto(m)) if m == "CryptProtectData failed"));
    let sealed = write_sealed(&vec![1, 2]);
    let refused = decrypt(&sealed, &|_: Vec<u8>| -> Option<Vec<u8>> { None });
    assert!(matches!(refused, Err(AppError::Crypto(m)) if m == "CryptUnprotectData failed"));
    let garbled = decrypt(&sealed, &|_: Vec<u8>| -> Option<Vec<u8>> { Some(vec![0xFF, 0xFE]) });
    assert!(matches!(garbled, Err(AppError::Crypto(m)) if m.starts_with("utf8 conversion failed: ")));
}


