use aes_gcm::aead::{Aead, KeyInit};
use base64::Engine;
use ota_server::crypto::CryptoService;
use ota_server::error::AppError;
use sha2::Digest;

fn seal_by_hand(passphrase: &str, nonce: &[u8; 12], plaintext: &str) -> String {
    let key = sha2::Sha256::digest(passphrase.as_bytes());
    let cipher = aes_gcm::Aes256Gcm::new(aes_gcm::Key::<aes_gcm::Aes256Gcm>::from_slice(&key));
    let ct = cipher.encrypt(aes_gcm::Nonce::from_slice(nonce), plaintext.as_bytes()).unwrap();
    let mut framed = nonce.to_vec();
    framed.extend_from_slice(&ct);
    base64::engine::general_purpose::STANDARD.encode(framed)
}

fn internal(r: Result<String, AppError>) -> String {
    match r {
        Err(AppError::Internal(m)) => m,
        _ => panic!("expected an internal error"),
    }
}

#[test]
fn round_trip() {
    let c = CryptoService::new("pass");
    for p in ["", "hello", "wifi-password-ü"] {
        let t = c.encrypt(p).ok().unwrap();
        assert_eq!(c.decrypt(&t).ok().unwrap(), p);
    }
}

#[test]
fn nonces_differ() {
    let c = CryptoService::new("pass");
    assert_ne!(c.encrypt("x").ok(), c.encrypt("x").ok());
}

#[test]
fn fixed_nonce_matches_hand_sealing() {
    let c = CryptoService::new("pass");
    let nonce = [7u8; 12];
    assert_eq!(c.encrypt_with_nonce("secret", &nonce).ok().unwrap(), seal_by_hand("pass", &nonce, "secret"));
    assert_eq!(c.decrypt(&seal_by_hand("pass", &nonce, "other")).ok().unwrap(), "other");
}

#[test]
fn decrypt_errors() {
    let c = CryptoService::new("pass");
    assert!(internal(c.decrypt("%%%")).starts_with("Base64 decode failed: "));
    assert_eq!(internal(c.decrypt("AAAA")), "Invalid ciphertext");
    let other = seal_by_hand("another pass", &[1u8; 12], "secret");
    assert_eq!(internal(c.decrypt(&other)), "Decryption failed: aead::Error");
    let nonce = [2u8; 12];
    let key = sha2::Sha256::digest(b"pass");
    let cipher = aes_gcm::Aes256Gcm::new(aes_gcm::Key::<aes_gcm::Aes256Gcm>::from_slice(&key));
    let ct = cipher.encrypt(aes_gcm::Nonce::from_slice(&nonce), &[0xffu8, 0xfe][..]).unwrap();
    let mut framed = nonce.to_vec();
    framed.extend_from_slice(&ct);
    let text = base64::engine::general_purpose::STANDARD.encode(framed);
    assert!(internal(c.decrypt(&text)).starts_with("Invalid UTF-8: "));
}

#[test]
fn options() {
    let c = CryptoService::new("pass");
    assert!(matches!(c.encrypt_option(&None), Ok(None)));
    assert!(matches!(c.encrypt_option(&Some(String::new())), Ok(None)));
    let e = c.encrypt_option(&Some("ssid".to_string())).ok().unwrap().unwrap();
    assert_eq!(c.decrypt_option(&Some(e)).ok().unwrap(), Some("ssid".to_string()));
    assert!(matches!(c.decrypt_option(&None), Ok(None)));
    assert!(matches!(c.decrypt_option(&Some(String::new())), Ok(None)));
    assert!(c.decrypt_option(&Some("AAAA".to_string())).is_err());
}
