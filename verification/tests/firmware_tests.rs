use ota_server::error::AppError;
use ota_server::firmware::{
    check_upload_fields, firmware_file_name, new_firmware_file_name, signature_text,
    FirmwareService,
};
use rsa::pkcs8::{EncodePrivateKey, EncodePublicKey, LineEnding};

fn keys() -> (String, String) {
    let key = rsa::RsaPrivateKey::new(&mut rand::thread_rng(), 1024).unwrap();
    let private_pem = key.to_pkcs8_pem(LineEnding::LF).unwrap().to_string();
    let public_pem = key.to_public_key().to_public_key_pem(LineEnding::LF).unwrap();
    (private_pem, public_pem)
}

fn rsa_text<T>(r: Result<T, AppError>) -> String {
    match r {
        Err(AppError::Rsa(m)) => m,
        _ => panic!("expected an RSA error"),
    }
}

#[test]
fn signing_and_verifying() {
    let (private_pem, public_pem) = keys();
    let svc = FirmwareService::new(
        "/srv/fw".to_string(),
        Some(private_pem.as_str()),
        Some(public_pem.as_str()),
    )
    .ok()
    .unwrap();
    let sig = svc.sign_firmware(b"image bytes").ok().unwrap();
    assert_eq!(sig.len(), 256);
    assert_eq!(svc.verify_signature(b"image bytes", &sig).ok(), Some(true));
    assert_eq!(svc.verify_signature(b"other bytes", &sig).ok(), Some(false));
    assert_eq!(svc.sign_firmware(b"image bytes").ok().unwrap(), sig);
    let (_, other_public) = keys();
    let other = FirmwareService::new("/srv/fw".to_string(), None, Some(other_public.as_str()))
        .ok()
        .unwrap();
    assert_eq!(other.verify_signature(b"image bytes", &sig).ok(), Some(false));
}

#[test]
fn key_pairs() {
    let (private_pem, public_pem) = keys();
    let (_, other_public) = keys();
    let paired = FirmwareService::new(
        "/srv/fw".to_string(),
        Some(private_pem.as_str()),
        Some(public_pem.as_str()),
    )
    .ok()
    .unwrap();
    assert!(paired.keys_match());
    let mismatched = FirmwareService::new(
        "/srv/fw".to_string(),
        Some(private_pem.as_str()),
        Some(other_public.as_str()),
    )
    .ok()
    .unwrap();
    assert!(!mismatched.keys_match());
    let signing_only =
        FirmwareService::new("/srv/fw".to_string(), Some(private_pem.as_str()), None).ok().unwrap();
    assert!(!signing_only.keys_match());
    assert!(!FirmwareService::new("/srv/fw".to_string(), None, None).ok().unwrap().keys_match());
}

#[test]
fn without_keys() {
    let svc = FirmwareService::new("/srv/fw".to_string(), None, None).ok().unwrap();
    assert_eq!(svc.sign_firmware(b"x").ok().unwrap(), "no-rsa-key-configured");
    assert_eq!(rsa_text(svc.verify_signature(b"x", "00")), "No public key configured");
}

#[test]
fn bad_keys_and_bad_hex() {
    assert!(rsa_text(FirmwareService::new("d".to_string(), Some("junk"), None))
        .starts_with("Invalid private key: "));
    assert!(rsa_text(FirmwareService::new("d".to_string(), None, Some("junk")))
        .starts_with("Invalid public key: "));
    let (_, public_pem) = keys();
    let svc = FirmwareService::new("d".to_string(), None, Some(public_pem.as_str())).ok().unwrap();
    match svc.verify_signature(b"x", "abc") {
        Err(AppError::InvalidSignature(m)) => assert_eq!(m, "Invalid hex: Odd number of digits"),
        _ => panic!("expected an invalid signature"),
    }
    match svc.verify_signature(b"x", "zz") {
        Err(AppError::InvalidSignature(m)) => {
            assert_eq!(m, "Invalid hex: Invalid character 'z' at position 0")
        }
        _ => panic!("expected an invalid signature"),
    }
    assert_eq!(svc.verify_signature(b"x", "01ABff").ok(), Some(false));
}

#[test]
fn file_paths_stay_in_the_store() {
    let svc = FirmwareService::new("/srv/fw".to_string(), None, None).ok().unwrap();
    assert!(svc.check_file_path("/srv/fw/sensor/v1.bin").is_ok());
    match svc.check_file_path("/srv/fwx/v1.bin") {
        Err(AppError::BadRequest(m)) => assert_eq!(m, "Invalid file path"),
        _ => panic!("expected a bad request"),
    }
    assert!(svc.check_file_path("/etc/passwd").is_err());
}

#[test]
fn file_names() {
    assert_eq!(firmware_file_name("1.2.3", "abc"), "v1.2.3_abc.bin");
    let n = new_firmware_file_name("2.0");
    assert!(n.starts_with("v2.0_") && n.ends_with(".bin"));
    assert_eq!(n.len(), "v2.0_".len() + 36 + ".bin".len());
}

#[test]
fn upload_fields() {
    let text = |r: Result<(), AppError>| match r {
        Err(AppError::BadRequest(m)) => m,
        _ => String::from("ok"),
    };
    assert_eq!(text(check_upload_fields(false, "", "")), "Missing file field");
    assert_eq!(text(check_upload_fields(true, "", "sensor")), "Missing version field");
    assert_eq!(text(check_upload_fields(true, "1.0", "")), "Missing device_type field");
    assert_eq!(text(check_upload_fields(true, "1.0", "sensor")), "ok");
}

#[test]
fn signing_outcomes() {
    assert_eq!(signature_text(Ok(vec![0xab, 0x01, 0xff])).unwrap(), "ab01ff");
    assert_eq!(signature_text(Ok(vec![])).unwrap(), "");
    assert_eq!(
        rsa_text(signature_text(Err(String::from("message too long")))),
        "RSA signing failed: message too long"
    );
}
