//! Firmware images: RSA signatures over their SHA-256 digest, the store they
//! live in, and the checks on an upload.
use vstd::prelude::*;
use rsa::pkcs8::{DecodePrivateKey, DecodePublicKey};

use crate::ambient::{is_uuid_v4_text, new_uuid_v4};
use crate::digest::{
    hex_decodable, hex_decode, hex_decoded, hex_encode, hex_lower, lemma_hex_lower_decodes, sha256,
    spec_hex_decode_error, spec_sha256,
};
use crate::error::{AppError, AppResult, bad_request};

verus! {

/// Outcome of reading a PKCS#8 PEM private key: nothing, or the error text.
pub uninterp spec fn spec_private_key_pem_check(pem: Seq<char>) -> Result<(), Seq<char>>;

/// Outcome of reading a SubjectPublicKeyInfo PEM public key.
pub uninterp spec fn spec_public_key_pem_check(pem: Seq<char>) -> Result<(), Seq<char>>;

/// The PKCS#1 v1.5 signature of a SHA-256 `digest` under the private key that
/// `private_pem` holds, or the text of the signing error. Signing draws no
/// random numbers, so it depends on these two alone.
pub uninterp spec fn spec_rsa_sign(private_pem: Seq<char>, digest: Seq<u8>) -> Result<Seq<u8>, Seq<char>>;

/// Whether `signature` is a valid PKCS#1 v1.5 signature of the SHA-256
/// `digest` under the public key that `public_pem` holds.
pub uninterp spec fn spec_rsa_verify(public_pem: Seq<char>, digest: Seq<u8>, signature: Seq<u8>) -> bool;

/// Whether the public key that `public_pem` holds is the public part of the
/// private key that `private_pem` holds: `to_public_key` of the one equals the
/// other.
pub uninterp spec fn spec_rsa_key_pair(private_pem: Seq<char>, public_pem: Seq<char>) -> bool;

/// Whether `Path::new(path).starts_with(base)`: the components of `base` are a
/// prefix of those of `path`.
pub uninterp spec fn spec_path_starts_with(path: Seq<char>, base: Seq<char>) -> bool;

/// `RsaPrivateKey::from_pkcs8_pem`: nothing, or the text of the error.
#[verifier::external_body]
fn check_private_key_pem(pem: &str) -> (res: Result<(), String>)
    ensures
        res is Ok <==> spec_private_key_pem_check(pem@) is Ok,
        res matches Err(t) ==> t@ == spec_private_key_pem_check(pem@)->Err_0,
{
    match rsa::RsaPrivateKey::from_pkcs8_pem(pem) {
        Ok(_) => Ok(()),
        Err(e) => Err(e.to_string()),
    }
}

/// `RsaPublicKey::from_public_key_pem`: nothing, or the text of the error.
#[verifier::external_body]
fn check_public_key_pem(pem: &str) -> (res: Result<(), String>)
    ensures
        res is Ok <==> spec_public_key_pem_check(pem@) is Ok,
        res matches Err(t) ==> t@ == spec_public_key_pem_check(pem@)->Err_0,
{
    match rsa::RsaPublicKey::from_public_key_pem(pem) {
        Ok(_) => Ok(()),
        Err(e) => Err(e.to_string()),
    }
}

/// `RsaPrivateKey::sign` with PKCS#1 v1.5 padding for a SHA-256 digest, under
/// the key read from `private_pem` (which reads, so the parse error arm is
/// never taken): the signature, or the text of the error. A signature it gives
/// verifies under the matching public key (`sign` checks its own result).
#[verifier::external_body]
fn rsa_sign_pkcs1v15_sha256(private_pem: &str, digest: &[u8]) -> (res: Result<Vec<u8>, String>)
    requires
        spec_private_key_pem_check(private_pem@) is Ok,
    ensures
        match spec_rsa_sign(private_pem@, digest@) {
            Ok(sig) => res matches Ok(v) && v@ == sig,
            Err(t) => res matches Err(e) && e@ == t,
        },
        res matches Ok(v) ==> forall|public_pem: Seq<char>|
            #[trigger] spec_rsa_key_pair(private_pem@, public_pem) ==> spec_rsa_verify(
                public_pem,
                digest@,
                v@,
            ),
{
    let key = match rsa::RsaPrivateKey::from_pkcs8_pem(private_pem) {
        Ok(k) => k,
        Err(e) => {
            return Err(e.to_string());
        },
    };
    match key.sign(rsa::Pkcs1v15Sign::new::<sha2::Sha256>(), digest) {
        Ok(s) => Ok(s),
        Err(e) => Err(e.to_string()),
    }
}

/// `RsaPublicKey::verify` with PKCS#1 v1.5 padding for a SHA-256 digest, under
/// the key read from `public_pem` (which reads, so the parse error arm is never
/// taken): whether the signature is valid.
#[verifier::external_body]
fn rsa_verify_pkcs1v15_sha256(public_pem: &str, digest: &[u8], signature: &[u8]) -> (valid: bool)
    requires
        spec_public_key_pem_check(public_pem@) is Ok,
    ensures
        valid == spec_rsa_verify(public_pem@, digest@, signature@),
{
    match rsa::RsaPublicKey::from_public_key_pem(public_pem) {
        Ok(k) => k.verify(rsa::Pkcs1v15Sign::new::<sha2::Sha256>(), digest, signature).is_ok(),
        Err(_) => false,
    }
}

/// `RsaPrivateKey::to_public_key` of the key read from `private_pem`, compared
/// with `==` to the key read from `public_pem` (both read, so the other arm is
/// never taken): whether the two keys form a pair.
#[verifier::external_body]
fn rsa_keys_match(private_pem: &str, public_pem: &str) -> (same: bool)
    requires
        spec_private_key_pem_check(private_pem@) is Ok,
        spec_public_key_pem_check(public_pem@) is Ok,
    ensures
        same == spec_rsa_key_pair(private_pem@, public_pem@),
{
    match (
        rsa::RsaPrivateKey::from_pkcs8_pem(private_pem),
        rsa::RsaPublicKey::from_public_key_pem(public_pem),
    ) {
        (Ok(k), Ok(p)) => k.to_public_key() == p,
        _ => false,
    }
}

/// `std::path::Path::new(path).starts_with(base)`.
#[verifier::external_body]
fn path_starts_with(path: &str, base: &str) -> (inside: bool)
    ensures
        inside == spec_path_starts_with(path@, base@),
{
    std::path::Path::new(path).starts_with(base)
}

pub open spec fn opt_text(o: Option<&str>) -> Option<Seq<char>> {
    match o {
        Some(t) => Some(t@),
        None => None,
    }
}

/// Signs and checks firmware images, and guards the directory they are kept
/// in. The keys are kept as the PEM texts they were read from.
pub struct FirmwareService {
    firmware_dir: String,
    rsa_private_key_pem: Option<String>,
    rsa_public_key_pem: Option<String>,
}

impl FirmwareService {
    /// The directory the images are kept in.
    pub closed spec fn dir(&self) -> Seq<char> {
        self.firmware_dir@
    }

    /// The PEM text of the private key, if one is configured.
    pub closed spec fn private_key_pem(&self) -> Option<Seq<char>> {
        match self.rsa_private_key_pem {
            Some(p) => Some(p@),
            None => None,
        }
    }

    /// The PEM text of the public key, if one is configured.
    pub closed spec fn public_key_pem(&self) -> Option<Seq<char>> {
        match self.rsa_public_key_pem {
            Some(p) => Some(p@),
            None => None,
        }
    }

    /// The configured keys read.
    #[verifier::type_invariant]
    closed spec fn keys_read(&self) -> bool {
        &&& (self.private_key_pem() matches Some(p) ==> spec_private_key_pem_check(p) is Ok)
        &&& (self.public_key_pem() matches Some(q) ==> spec_public_key_pem_check(q) is Ok)
    }

    /// Reads the optional PEM keys: a private key that does not parse is
    /// reported first, then a public key that does not parse.
    pub fn new(
        firmware_dir: String,
        private_key_pem: Option<&str>,
        public_key_pem: Option<&str>,
    ) -> (res: AppResult<Self>)
        ensures
            match (private_key_pem, public_key_pem) {
                (Some(p), _) if spec_private_key_pem_check(p@) is Err => res matches Err(
                    AppError::Rsa(m),
                ) && m@ == "Invalid private key: "@ + spec_private_key_pem_check(p@)->Err_0,
                (_, Some(q)) if spec_public_key_pem_check(q@) is Err => res matches Err(
                    AppError::Rsa(m),
                ) && m@ == "Invalid public key: "@ + spec_public_key_pem_check(q@)->Err_0,
                _ => res matches Ok(s) && s.dir() == firmware_dir@ && s.private_key_pem()
                    == opt_text(private_key_pem) && s.public_key_pem() == opt_text(public_key_pem),
            },
    {
        let rsa_private_key_pem = match private_key_pem {
            None => None,
            Some(pem) => match check_private_key_pem(pem) {
                Ok(()) => Some(pem.to_owned()),
                Err(e) => {
                    let mut m = "Invalid private key: ".to_owned();
                    m.append(e.as_str());
                    return Err(AppError::Rsa(m));
                },
            },
        };
        let rsa_public_key_pem = match public_key_pem {
            None => None,
            Some(pem) => match check_public_key_pem(pem) {
                Ok(()) => Some(pem.to_owned()),
                Err(e) => {
                    let mut m = "Invalid public key: ".to_owned();
                    m.append(e.as_str());
                    return Err(AppError::Rsa(m));
                },
            },
        };
        Ok(FirmwareService { firmware_dir, rsa_private_key_pem, rsa_public_key_pem })
    }

    /// Hex of the RSA signature over the SHA-256 digest of `data`, or a marker
    /// text when no private key is configured. A signature it gives verifies
    /// under the public key that matches the private key.
    pub fn sign_firmware(&self, data: &[u8]) -> (res: AppResult<String>)
        ensures
            match self.private_key_pem() {
                None => res matches Ok(s) && s@ == "no-rsa-key-configured"@,
                Some(k) => match spec_rsa_sign(k, spec_sha256(data@)) {
                    Ok(sig) => res matches Ok(s) && s@ == hex_lower(sig),
                    Err(t) => res matches Err(AppError::Rsa(m)) && m@ == "RSA signing failed: "@ + t,
                },
            },
            self.private_key_pem() matches Some(k) ==> (res matches Ok(s) ==> hex_decodable(s@)
                && forall|public_pem: Seq<char>|
                #[trigger] spec_rsa_key_pair(k, public_pem) ==> spec_rsa_verify(
                    public_pem,
                    spec_sha256(data@),
                    hex_decoded(s@),
                )),
    {
        proof {
            use_type_invariant(self);
        }
        match &self.rsa_private_key_pem {
            Some(pem) => {
                let hash = sha256(data);
                let signed = rsa_sign_pkcs1v15_sha256(pem.as_str(), hash.as_slice());
                let ghost g = signed;
                let res = signature_text(signed);
                proof {
                    if let Ok(v) = g {
                        lemma_hex_lower_decodes(v@);
                    }
                }
                res
            },
            None => Ok("no-rsa-key-configured".to_owned()),
        }
    }

    /// Checks a hex signature of `data` with the public key: an error when no
    /// public key is configured or the signature is not hex, otherwise whether
    /// the signature is valid.
    pub fn verify_signature(&self, data: &[u8], signature_hex: &str) -> (res: AppResult<bool>)
        ensures
            self.public_key_pem() is None ==> (res matches Err(AppError::Rsa(m)) && m@
                == "No public key configured"@),
            self.public_key_pem() is Some && !hex_decodable(signature_hex@) ==> (res matches Err(
                AppError::InvalidSignature(m),
            ) && m@ == "Invalid hex: "@ + spec_hex_decode_error(signature_hex@)),
            self.public_key_pem() matches Some(p) ==> (hex_decodable(signature_hex@) ==> res
                == Ok::<bool, AppError>(
                spec_rsa_verify(p, spec_sha256(data@), hex_decoded(signature_hex@)),
            )),
    {
        proof {
            use_type_invariant(self);
        }
        let public_pem = match &self.rsa_public_key_pem {
            Some(k) => k,
            None => {
                return Err(AppError::Rsa("No public key configured".to_owned()));
            },
        };
        let signature = match hex_decode(signature_hex) {
            Ok(s) => s,
            Err(e) => {
                let mut m = "Invalid hex: ".to_owned();
                m.append(e.as_str());
                return Err(AppError::InvalidSignature(m));
            },
        };
        let hash = sha256(data);
        Ok(rsa_verify_pkcs1v15_sha256(public_pem.as_str(), hash.as_slice(), signature.as_slice()))
    }

    /// Whether both keys are configured and the public key is the public part
    /// of the private key, so that what this service signs it also verifies.
    pub fn keys_match(&self) -> (same: bool)
        ensures
            same == match (self.private_key_pem(), self.public_key_pem()) {
                (Some(k), Some(p)) => spec_rsa_key_pair(k, p),
                _ => false,
            },
    {
        proof {
            use_type_invariant(self);
        }
        match (&self.rsa_private_key_pem, &self.rsa_public_key_pem) {
            (Some(k), Some(p)) => rsa_keys_match(k.as_str(), p.as_str()),
            _ => false,
        }
    }

    /// Refuses a stored file path outside the firmware directory.
    pub fn check_file_path(&self, file_path: &str) -> (res: AppResult<()>)
        ensures
            res is Ok <==> spec_path_starts_with(file_path@, self.dir()),
            res matches Err(e) ==> e matches AppError::BadRequest(m) && m@ == "Invalid file path"@,
    {
        if path_starts_with(file_path, self.firmware_dir.as_str()) {
            Ok(())
        } else {
            Err(bad_request("Invalid file path"))
        }
    }
}

pub open spec fn firmware_file_name_text(version: Seq<char>, unique: Seq<char>) -> Seq<char> {
    "v"@ + version + "_"@ + unique + ".bin"@
}

/// The name under which an uploaded image is stored: `v{version}_{unique}.bin`.
pub fn firmware_file_name(version: &str, unique: &str) -> (name: String)
    ensures
        name@ == firmware_file_name_text(version@, unique@),
{
    let mut name = "v".to_owned();
    name.append(version);
    name.append("_");
    name.append(unique);
    name.append(".bin");
    name
}

/// A fresh file name for an uploaded image, made unique by a random UUID.
pub fn new_firmware_file_name(version: &str) -> (name: String)
    ensures
        exists|unique: Seq<char>|
            #[trigger] is_uuid_v4_text(unique) && name@ == firmware_file_name_text(version@, unique),
{
    let unique = new_uuid_v4();
    assert(is_uuid_v4_text(unique@));
    firmware_file_name(version, unique.as_str())
}

/// How the outcome of signing an image is kept: the lower-case hex of the
/// signature, or the signing error.
pub fn signature_text(signed: Result<Vec<u8>, String>) -> (res: AppResult<String>)
    ensures
        match signed {
            Ok(sig) => res matches Ok(s) && s@ == hex_lower(sig@),
            Err(t) => res matches Err(AppError::Rsa(m)) && m@ == "RSA signing failed: "@ + t@,
        },
{
    match signed {
        Ok(signature) => Ok(hex_encode(signature.as_slice())),
        Err(e) => {
            let mut m = "RSA signing failed: ".to_owned();
            m.append(e.as_str());
            Err(AppError::Rsa(m))
        },
    }
}

/// The fields an upload must carry: a file, a version and a device type,
/// checked in that order.
pub fn check_upload_fields(has_file: bool, version: &str, device_type: &str) -> (res: AppResult<
    (),
>)
    ensures
        !has_file ==> (res matches Err(AppError::BadRequest(m)) && m@ == "Missing file field"@),
        has_file && version@.len() == 0 ==> (res matches Err(AppError::BadRequest(m)) && m@
            == "Missing version field"@),
        has_file && version@.len() > 0 && device_type@.len() == 0 ==> (res matches Err(
            AppError::BadRequest(m),
        ) && m@ == "Missing device_type field"@),
        has_file && version@.len() > 0 && device_type@.len() > 0 ==> res is Ok,
{
    if !has_file {
        return Err(bad_request("Missing file field"));
    }
    if version.is_empty() {
        return Err(bad_request("Missing version field"));
    }
    if device_type.is_empty() {
        return Err(bad_request("Missing device_type field"));
    }
    Ok(())
}

} // verus!
