//! Encryption of stored secrets: AES-256-GCM under a key derived from a
//! passphrase, with a random 12-byte nonce put in front of the ciphertext and
//! the whole written in standard Base64.
use vstd::prelude::*;
use vstd::utf8::{decode_utf8, encode_utf8, encode_utf8_decode_utf8, encode_utf8_valid_utf8, valid_utf8};
use aes_gcm::aead::{Aead, KeyInit};
use base64::Engine;

use crate::ambient::random_nonce;
use crate::digest::{sha256, spec_sha256};
use crate::error::{AppError, AppResult};

verus! {

/// AES-256-GCM ciphertext (with its 16-byte tag) of `plaintext` under `key` and
/// `nonce`, no associated data. What it computes is not restated here.
pub uninterp spec fn spec_aes256gcm_encrypt(key: Seq<u8>, nonce: Seq<u8>, plaintext: Seq<u8>) -> Seq<u8>;

/// AES-256-GCM decryption: the plaintext when the tag authenticates, else nothing.
pub uninterp spec fn spec_aes256gcm_decrypt(key: Seq<u8>, nonce: Seq<u8>, ciphertext: Seq<u8>) -> Option<Seq<u8>>;

/// Standard Base64 (with padding) of a byte string.
pub uninterp spec fn spec_base64_encode(data: Seq<u8>) -> Seq<char>;

/// Standard Base64 decoding of a text: the bytes, or the text of the error.
pub uninterp spec fn spec_base64_decode(text: Seq<char>) -> Result<Seq<u8>, Seq<char>>;

/// Text of the error that `String::from_utf8` reports for bytes that are not UTF-8.
pub uninterp spec fn spec_utf8_error_text(bytes: Seq<u8>) -> Seq<char>;

/// Longest plaintext that AES-GCM accepts, in bytes (`aes_gcm::P_MAX`).
pub open spec fn aes_gcm_p_max() -> nat {
    0x10_0000_0000nat
}

/// `Aes256Gcm::new(key).encrypt(nonce, plaintext)`. The `aes-gcm` source refuses
/// only a plaintext longer than `P_MAX`, with `aead::Error`; a ciphertext it
/// gives decrypts back to the plaintext under the same key and nonce.
#[verifier::external_body]
fn aes256gcm_encrypt(key: &[u8], nonce: &[u8], plaintext: &[u8]) -> (res: Result<Vec<u8>, String>)
    requires
        key@.len() == 32,
        nonce@.len() == 12,
    ensures
        res is Ok <==> plaintext@.len() <= aes_gcm_p_max(),
        res matches Ok(c) ==> c@ == spec_aes256gcm_encrypt(key@, nonce@, plaintext@),
        res matches Ok(c) ==> spec_aes256gcm_decrypt(key@, nonce@, c@) == Some(plaintext@),
        res matches Err(t) ==> t@ == "aead::Error"@,
{
    let cipher = aes_gcm::Aes256Gcm::new(aes_gcm::Key::<aes_gcm::Aes256Gcm>::from_slice(key));
    match cipher.encrypt(aes_gcm::Nonce::from_slice(nonce), plaintext) {
        Ok(c) => Ok(c),
        Err(e) => Err(e.to_string()),
    }
}

/// `Aes256Gcm::new(key).decrypt(nonce, ciphertext)`; it fails with `aead::Error`.
#[verifier::external_body]
fn aes256gcm_decrypt(key: &[u8], nonce: &[u8], ciphertext: &[u8]) -> (res: Result<Vec<u8>, String>)
    requires
        key@.len() == 32,
        nonce@.len() == 12,
    ensures
        match spec_aes256gcm_decrypt(key@, nonce@, ciphertext@) {
            Some(p) => res matches Ok(v) && v@ == p,
            None => res matches Err(t) && t@ == "aead::Error"@,
        },
{
    let cipher = aes_gcm::Aes256Gcm::new(aes_gcm::Key::<aes_gcm::Aes256Gcm>::from_slice(key));
    match cipher.decrypt(aes_gcm::Nonce::from_slice(nonce), ciphertext) {
        Ok(p) => Ok(p),
        Err(e) => Err(e.to_string()),
    }
}

/// Whether `text` is the standard Base64 encoding of `data`, which decodes back
/// to `data`.
pub open spec fn base64_encoding_of(text: Seq<char>, data: Seq<u8>) -> bool {
    &&& text == spec_base64_encode(data)
    &&& spec_base64_decode(text) == Ok::<Seq<u8>, Seq<char>>(data)
}

/// `base64::engine::general_purpose::STANDARD.encode`; decoding the text gives
/// the bytes back.
#[verifier::external_body]
fn base64_encode(data: &[u8]) -> (text: String)
    ensures
        text@ == spec_base64_encode(data@),
        base64_encoding_of(text@, data@),
{
    base64::engine::general_purpose::STANDARD.encode(data)
}

/// `base64::engine::general_purpose::STANDARD.decode` of the bytes of `text`.
#[verifier::external_body]
fn base64_decode(text: &str) -> (res: Result<Vec<u8>, String>)
    ensures
        match spec_base64_decode(text@) {
            Ok(b) => res matches Ok(v) && v@ == b,
            Err(t) => res matches Err(e) && e@ == t,
        },
{
    match base64::engine::general_purpose::STANDARD.decode(text) {
        Ok(v) => Ok(v),
        Err(e) => Err(e.to_string()),
    }
}

/// `String::from_utf8`: succeeds exactly on valid UTF-8.
#[verifier::external_body]
fn string_from_utf8(bytes: Vec<u8>) -> (res: Result<String, String>)
    ensures
        res is Ok <==> valid_utf8(bytes@),
        res matches Ok(s) ==> s@ == decode_utf8(bytes@),
        res matches Err(t) ==> t@ == spec_utf8_error_text(bytes@),
{
    match String::from_utf8(bytes) {
        Ok(s) => Ok(s),
        Err(e) => Err(e.to_string()),
    }
}

/// The text that encrypting `plaintext` under `key` with `nonce` yields, if
/// the plaintext is not too long.
pub open spec fn sealed_text(key: Seq<u8>, nonce: Seq<u8>, plaintext: Seq<char>) -> Option<Seq<char>> {
    let p = encode_utf8(plaintext);
    if p.len() <= aes_gcm_p_max() {
        Some(spec_base64_encode(nonce + spec_aes256gcm_encrypt(key, nonce, p)))
    } else {
        None
    }
}

/// What decrypting `text` under `key` yields: the plaintext, or the message of
/// the error.
pub open spec fn opened_text(key: Seq<u8>, text: Seq<char>) -> Result<Seq<char>, Seq<char>> {
    match spec_base64_decode(text) {
        Err(t) => Err("Base64 decode failed: "@ + t),
        Ok(d) => if d.len() < 12 {
            Err("Invalid ciphertext"@)
        } else {
            match spec_aes256gcm_decrypt(key, d.take(12), d.skip(12)) {
                None => Err("Decryption failed: "@ + "aead::Error"@),
                Some(p) => if valid_utf8(p) {
                    Ok(decode_utf8(p))
                } else {
                    Err("Invalid UTF-8: "@ + spec_utf8_error_text(p))
                },
            }
        },
    }
}

pub open spec fn encryption_refusal_text() -> Seq<char> {
    "Encryption failed: "@ + "aead::Error"@
}

/// Encrypts and decrypts secrets under one key.
pub struct CryptoService {
    key: Vec<u8>,
}

impl CryptoService {
    /// The AES-256 key.
    pub closed spec fn key_bytes(&self) -> Seq<u8> {
        self.key@
    }

    #[verifier::type_invariant]
    closed spec fn key_is_aes256(&self) -> bool {
        self.key@.len() == 32
    }

    /// The key is the SHA-256 digest of the UTF-8 bytes of the passphrase.
    pub fn new(key_material: &str) -> (s: Self)
        ensures
            s.key_bytes() == spec_sha256(encode_utf8(key_material@)),
    {
        let key = sha256(key_material.as_bytes());
        CryptoService { key }
    }

    /// Encrypts with the given 12-byte nonce.
    pub fn encrypt_with_nonce(&self, plaintext: &str, nonce: &[u8]) -> (res: AppResult<String>)
        requires
            nonce@.len() == 12,
        ensures
            match sealed_text(self.key_bytes(), nonce@, plaintext@) {
                Some(t) => res matches Ok(s) && s@ == t,
                None => res matches Err(AppError::Internal(m)) && m@ == encryption_refusal_text(),
            },
            res matches Ok(s) ==> opened_text(self.key_bytes(), s@) == Ok::<Seq<char>, Seq<char>>(
                plaintext@,
            ),
    {
        proof {
            use_type_invariant(self);
        }
        let p = plaintext.as_bytes();
        match aes256gcm_encrypt(self.key.as_slice(), nonce, p) {
            Err(e) => {
                let mut m = "Encryption failed: ".to_owned();
                m.append(e.as_str());
                Err(AppError::Internal(m))
            },
            Ok(c) => {
                let mut framed: Vec<u8> = Vec::new();
                let mut i: usize = 0;
                while i < nonce.len()
                    invariant
                        i <= nonce@.len(),
                        framed@ == nonce@.take(i as int),
                    decreases nonce@.len() - i,
                {
                    framed.push(nonce[i]);
                    assert(nonce@.take(i + 1) =~= nonce@.take(i as int).push(nonce@[i as int]));
                    i = i + 1;
                }
                let mut j: usize = 0;
                while j < c.len()
                    invariant
                        j <= c@.len(),
                        nonce@.len() == 12,
                        framed@ == nonce@ + c@.take(j as int),
                    decreases c@.len() - j,
                {
                    framed.push(c[j]);
                    assert(c@.take(j + 1) =~= c@.take(j as int).push(c@[j as int]));
                    j = j + 1;
                }
                assert(nonce@.take(12) =~= nonce@);
                assert(c@.take(c@.len() as int) =~= c@);
                let text = base64_encode(framed.as_slice());
                proof {
                    assert(framed@.take(12) =~= nonce@);
                    assert(framed@.skip(12) =~= c@);
                    encode_utf8_valid_utf8(plaintext@);
                    encode_utf8_decode_utf8(plaintext@);
                }
                Ok(text)
            },
        }
    }

    /// Encrypts with a fresh random nonce. Whatever text it gives, decrypting
    /// that text gives the plaintext back.
    pub fn encrypt(&self, plaintext: &str) -> (res: AppResult<String>)
        ensures
            res matches Ok(s) ==> opened_text(self.key_bytes(), s@) == Ok::<Seq<char>, Seq<char>>(
                plaintext@,
            ),
            res matches Ok(s) ==> exists|nonce: Seq<u8>|
                nonce.len() == 12 && #[trigger] sealed_text(self.key_bytes(), nonce, plaintext@)
                    == Some(s@),
            res is Err <==> encode_utf8(plaintext@).len() > aes_gcm_p_max(),
            res matches Err(e) ==> e matches AppError::Internal(m) && m@ == encryption_refusal_text(),
    {
        let nonce = random_nonce();
        self.encrypt_with_nonce(plaintext, nonce.as_slice())
    }

    /// Decrypts a text made by `encrypt`.
    pub fn decrypt(&self, ciphertext_b64: &str) -> (res: AppResult<String>)
        ensures
            match opened_text(self.key_bytes(), ciphertext_b64@) {
                Ok(p) => res matches Ok(s) && s@ == p,
                Err(t) => res matches Err(AppError::Internal(m)) && m@ == t,
            },
    {
        proof {
            use_type_invariant(self);
        }
        let data = match base64_decode(ciphertext_b64) {
            Ok(d) => d,
            Err(e) => {
                let mut m = "Base64 decode failed: ".to_owned();
                m.append(e.as_str());
                return Err(AppError::Internal(m));
            },
        };
        if data.len() < 12 {
            return Err(AppError::Internal("Invalid ciphertext".to_owned()));
        }
        let n = data.len();
        let mut nonce: Vec<u8> = Vec::new();
        let mut body: Vec<u8> = Vec::new();
        let mut i: usize = 0;
        while i < n
            invariant
                n == data@.len(),
                12 <= n,
                i <= n,
                i <= 12 ==> nonce@ == data@.take(i as int) && body@.len() == 0,
                i > 12 ==> nonce@ == data@.take(12) && body@ == data@.subrange(12, i as int),
            decreases n - i,
        {
            if i < 12 {
                nonce.push(data[i]);
                assert(data@.take(i + 1) =~= data@.take(i as int).push(data@[i as int]));
            } else {
                body.push(data[i]);
                assert(data@.subrange(12, i + 1) =~= data@.subrange(12, i as int).push(
                    data@[i as int],
                ));
            }
            i = i + 1;
        }
        assert(body@ =~= data@.skip(12));
        let plain = match aes256gcm_decrypt(self.key.as_slice(), nonce.as_slice(), body.as_slice()) {
            Ok(p) => p,
            Err(e) => {
                let mut m = "Decryption failed: ".to_owned();
                m.append(e.as_str());
                return Err(AppError::Internal(m));
            },
        };
        match string_from_utf8(plain) {
            Ok(s) => Ok(s),
            Err(e) => {
                let mut m = "Invalid UTF-8: ".to_owned();
                m.append(e.as_str());
                Err(AppError::Internal(m))
            },
        }
    }

    /// Encrypts a value that is present and not empty; anything else stays absent.
    pub fn encrypt_option(&self, plaintext: &Option<String>) -> (res: AppResult<Option<String>>)
        ensures
            match plaintext {
                Some(s) if s@.len() > 0 => {
                    &&& (res matches Ok(Some(c)) ==> opened_text(self.key_bytes(), c@)
                        == Ok::<Seq<char>, Seq<char>>(s@))
                    &&& (res is Err <==> encode_utf8(s@).len() > aes_gcm_p_max())
                    &&& (res matches Err(e) ==> e matches AppError::Internal(m) && m@
                        == encryption_refusal_text())
                    &&& !(res matches Ok(None))
                },
                _ => res matches Ok(None),
            },
    {
        match plaintext {
            Some(s) => {
                if s.as_str().is_empty() {
                    Ok(None)
                } else {
                    match self.encrypt(s.as_str()) {
                        Ok(c) => Ok(Some(c)),
                        Err(e) => Err(e),
                    }
                }
            },
            None => Ok(None),
        }
    }

    /// Decrypts a value that is present and not empty; anything else stays absent.
    pub fn decrypt_option(&self, ciphertext: &Option<String>) -> (res: AppResult<Option<String>>)
        ensures
            match ciphertext {
                Some(s) if s@.len() > 0 => match opened_text(self.key_bytes(), s@) {
                    Ok(p) => res matches Ok(Some(v)) && v@ == p,
                    Err(t) => res matches Err(AppError::Internal(m)) && m@ == t,
                },
                _ => res matches Ok(None),
            },
    {
        match ciphertext {
            Some(s) => {
                if s.as_str().is_empty() {
                    Ok(None)
                } else {
                    match self.decrypt(s.as_str()) {
                        Ok(p) => Ok(Some(p)),
                        Err(e) => Err(e),
                    }
                }
            },
            None => Ok(None),
        }
    }
}

} // verus!
