use ota_server::error::AppError;
use ota_server::hmac_service::{new_rotation_key_id, sign_message, HmacService};

fn service() -> HmacService {
    HmacService::new("primary-k".to_string(), "secondary-k".to_string(), 3600)
}

fn sig_of(url: &str) -> String {
    url.split("&sig=").nth(1).unwrap().to_string()
}

#[test]
fn link_layout() {
    let s = service();
    let (url, key_id) = s.generate_download_url_at(42, "dev-1", "http://localhost:3000", 1000);
    assert_eq!(key_id, "primary");
    let sig = sign_message("primary-k", "42|dev-1|4600|primary");
    assert_eq!(
        url,
        format!(
            "http://localhost:3000/api/v1/firmware/42/download?device_id=dev-1&expires=4600&key_id=primary&sig={}",
            sig
        )
    );
    assert_eq!(sig.len(), 64);
}

#[test]
fn negative_firmware_id_is_written_with_sign() {
    let s = service();
    let (url, _) = s.generate_download_url_at(-3, "d", "", 0);
    assert!(url.starts_with("/api/v1/firmware/-3/download?device_id=d&expires=3600&"));
}

#[test]
fn issued_link_verifies_until_expiry() {
    let s = service();
    let (url, key_id) = s.generate_download_url_at(7, "dev-9", "http://h", 100);
    let sig = sig_of(&url);
    for now in [100, 2000, 3700] {
        assert!(s.verify_download_signature_at(7, "dev-9", 3700, &key_id, &sig, now).is_ok());
    }
}

#[test]
fn expired_link_is_refused() {
    let s = service();
    let (url, key_id) = s.generate_download_url_at(7, "dev-9", "http://h", 100);
    let sig = sig_of(&url);
    assert!(matches!(
        s.verify_download_signature_at(7, "dev-9", 3700, &key_id, &sig, 3701),
        Err(AppError::UrlExpired)
    ));
}

#[test]
fn unknown_key_and_mismatch() {
    let s = service();
    match s.verify_download_signature_at(7, "d", 50, "tertiary", "00", 10) {
        Err(AppError::InvalidSignature(m)) => assert_eq!(m, "Unknown key_id"),
        _ => panic!("expected an invalid signature"),
    }
    match s.verify_download_signature_at(7, "d", 50, "primary", "00", 10) {
        Err(AppError::InvalidSignature(m)) => assert_eq!(m, "Signature mismatch"),
        _ => panic!("expected an invalid signature"),
    }
    let (url, _) = s.generate_download_url_at(7, "d", "", 10);
    let sig = sig_of(&url);
    assert!(s.verify_download_signature_at(8, "d", 3610, "primary", &sig, 10).is_err());
    assert!(s.verify_download_signature_at(7, "e", 3610, "primary", &sig, 10).is_err());
}

#[test]
fn secondary_key_links_verify() {
    let s = service();
    let sig = sign_message("secondary-k", "5|dev|900|secondary");
    assert!(s.verify_download_signature_at(5, "dev", 900, "secondary", &sig, 1).is_ok());
}

#[test]
fn reload_replaces_keys() {
    let mut s = service();
    s.reload_keys(("new-p".to_string(), "primary-k".to_string()));
    assert_eq!(s.primary_key, "new-p");
    assert_eq!(s.secondary_key, "primary-k");
    assert_eq!(s.url_expiry_secs, 3600);
}

#[test]
fn link_generated_now_and_overflow() {
    let s = service();
    let (url, key_id) = s.generate_download_url(1, "d", "http://x").unwrap();
    assert_eq!(key_id, "primary");
    assert!(url.starts_with("http://x/api/v1/firmware/1/download?device_id=d&expires="));
    let forever = HmacService::new("a".to_string(), "b".to_string(), u64::MAX);
    assert!(forever.generate_download_url(1, "d", "").is_none());
    let instant = HmacService::new("a".to_string(), "b".to_string(), 0);
    assert!(instant.generate_download_url(1, "d", "").is_some());
}

#[test]
fn rotation_key_ids_are_fresh() {
    let a = new_rotation_key_id();
    let b = new_rotation_key_id();
    assert!(a.starts_with("key-"));
    assert_eq!(a.len(), 40);
    assert_ne!(a, b);
    let u: Vec<char> = a["key-".len()..].chars().collect();
    for (i, c) in u.iter().enumerate() {
        if i == 8 || i == 13 || i == 18 || i == 23 {
            assert_eq!(*c, '-');
        } else {
            assert!(c.is_ascii_hexdigit() && !c.is_ascii_uppercase());
        }
    }
    assert_eq!(u[14], '4');
    assert!(matches!(u[19], '8' | '9' | 'a' | 'b'));
}
