//! Signed, expiring download links.
//!
//! A link names a firmware image, a device, an expiry time (Unix seconds) and
//! a key id, and carries the lower-case hex HMAC-SHA256 of
//! `firmware_id|device_id|expires|key_id` under the key that the id names.
use vstd::prelude::*;
use vstd::utf8::{encode_utf8, encode_utf8_decode_utf8};

use crate::ambient::{is_uuid_v4_text, new_uuid_v4, unix_time_secs};
use crate::digest::{constant_time_eq, hex_encode, hex_lower, hmac_sha256, spec_hmac_sha256};
use crate::error::{AppError, AppResult};
use crate::text::{append_dec_i64, append_dec_u64, dec_int, dec_nat, push_char, str_eq};

verus! {

/// The signing keys and the lifetime of the links they sign.
pub struct HmacService {
    pub primary_key: String,
    pub secondary_key: String,
    pub url_expiry_secs: u64,
}

/// The text that a link's signature covers.
pub open spec fn download_message(
    firmware_id: int,
    device_id: Seq<char>,
    expires: int,
    key_id: Seq<char>,
) -> Seq<char> {
    dec_int(firmware_id) + seq!['|'] + device_id + seq!['|'] + dec_nat(expires as nat) + seq!['|']
        + key_id
}

/// The signature of `message` under `key`: lower-case hex of HMAC-SHA256 over
/// the UTF-8 bytes of both.
pub open spec fn spec_signature(key: Seq<char>, message: Seq<char>) -> Seq<char> {
    hex_lower(spec_hmac_sha256(encode_utf8(key), encode_utf8(message)))
}

/// The download link for a firmware image.
pub open spec fn download_url(
    base_url: Seq<char>,
    firmware_id: int,
    device_id: Seq<char>,
    expires: int,
    key_id: Seq<char>,
    signature: Seq<char>,
) -> Seq<char> {
    base_url + "/api/v1/firmware/"@ + dec_int(firmware_id) + "/download?device_id="@ + device_id
        + "&expires="@ + dec_nat(expires as nat) + "&key_id="@ + key_id + "&sig="@ + signature
}

/// The key that a key id names: `primary` or `secondary`.
pub open spec fn key_for(primary: Seq<char>, secondary: Seq<char>, key_id: Seq<char>) -> Option<
    Seq<char>,
> {
    if key_id == "primary"@ {
        Some(primary)
    } else if key_id == "secondary"@ {
        Some(secondary)
    } else {
        None
    }
}

/// Whether a link with these parts is honoured at time `now`: it has not
/// expired, its key id names a key, and its signature is that key's signature
/// of its parts.
pub open spec fn spec_download_authorized(
    primary: Seq<char>,
    secondary: Seq<char>,
    firmware_id: int,
    device_id: Seq<char>,
    expires: int,
    key_id: Seq<char>,
    signature: Seq<char>,
    now: int,
) -> bool {
    &&& now <= expires
    &&& key_for(primary, secondary, key_id) matches Some(k)
    &&& signature == spec_signature(k, download_message(firmware_id, device_id, expires, key_id))
}

/// The error text when the system clock reads earlier than the Unix epoch.
pub open spec fn clock_error_text() -> Seq<char> {
    "System time before Unix epoch"@
}

/// The key id that new links are signed with.
pub open spec fn primary_key_id() -> Seq<char> {
    "primary"@
}

/// Appends `firmware_id|device_id|expires|key_id`.
fn append_download_message(
    out: &mut String,
    firmware_id: i64,
    device_id: &str,
    expires: u64,
    key_id: &str,
)
    ensures
        final(out)@ == old(out)@ + download_message(
            firmware_id as int,
            device_id@,
            expires as int,
            key_id@,
        ),
{
    let ghost start = out@;
    append_dec_i64(out, firmware_id);
    push_char(out, '|');
    out.append(device_id);
    push_char(out, '|');
    append_dec_u64(out, expires);
    push_char(out, '|');
    out.append(key_id);
    assert(out@ =~= start + download_message(firmware_id as int, device_id@, expires as int, key_id@));
}

/// The signature of `message` under `key`.
pub fn sign_message(key: &str, message: &str) -> (signature: String)
    ensures
        signature@ == spec_signature(key@, message@),
{
    let tag = hmac_sha256(key.as_bytes(), message.as_bytes());
    hex_encode(tag.as_slice())
}

impl HmacService {
    pub fn new(primary_key: String, secondary_key: String, url_expiry_secs: u64) -> (s: Self)
        ensures
            s.primary_key@ == primary_key@,
            s.secondary_key@ == secondary_key@,
            s.url_expiry_secs == url_expiry_secs,
    {
        HmacService { primary_key, secondary_key, url_expiry_secs }
    }

    /// A download link issued at time `now`: it expires `url_expiry_secs`
    /// later and is signed with the primary key. Returns the link and the key id.
    pub fn generate_download_url_at(
        &self,
        firmware_id: i64,
        device_id: &str,
        base_url: &str,
        now: u64,
    ) -> (res: (String, String))
        requires
            now + self.url_expiry_secs <= u64::MAX,
        ensures
            res.1@ == primary_key_id(),
            res.0@ == download_url(
                base_url@,
                firmware_id as int,
                device_id@,
                now + self.url_expiry_secs,
                primary_key_id(),
                spec_signature(
                    self.primary_key@,
                    download_message(
                        firmware_id as int,
                        device_id@,
                        now + self.url_expiry_secs,
                        primary_key_id(),
                    ),
                ),
            ),
    {
        let expires = now + self.url_expiry_secs;
        let key_id = "primary";
        let mut message = String::new();
        append_download_message(&mut message, firmware_id, device_id, expires, key_id);
        assert(message@ =~= download_message(firmware_id as int, device_id@, expires as int, key_id@));
        let signature = sign_message(self.primary_key.as_str(), message.as_str());
        let mut url = base_url.to_owned();
        url.append("/api/v1/firmware/");
        append_dec_i64(&mut url, firmware_id);
        url.append("/download?device_id=");
        url.append(device_id);
        url.append("&expires=");
        append_dec_u64(&mut url, expires);
        url.append("&key_id=");
        url.append(key_id);
        url.append("&sig=");
        url.append(signature.as_str());
        assert(url@ =~= download_url(
            base_url@,
            firmware_id as int,
            device_id@,
            expires as int,
            key_id@,
            signature@,
        ));
        (url, key_id.to_owned())
    }

    /// A download link issued now. There is none when the system clock reads
    /// earlier than the Unix epoch or when the current time plus the link
    /// lifetime would not fit in 64 bits.
    pub fn generate_download_url(&self, firmware_id: i64, device_id: &str, base_url: &str) -> (res:
        Option<(String, String)>)
        ensures
            res matches Some(r) ==> r.1@ == primary_key_id() && exists|expires: int|
                expires >= self.url_expiry_secs && #[trigger] download_url(
                    base_url@,
                    firmware_id as int,
                    device_id@,
                    expires,
                    primary_key_id(),
                    spec_signature(
                        self.primary_key@,
                        download_message(firmware_id as int, device_id@, expires, primary_key_id()),
                    ),
                ) == r.0@,
    {
        let now = match unix_time_secs() {
            Some(t) => t,
            None => {
                return None;
            },
        };
        if now > u64::MAX - self.url_expiry_secs {
            return None;
        }
        let r = self.generate_download_url_at(firmware_id, device_id, base_url, now);
        let ghost expires = now + self.url_expiry_secs;
        assert(download_url(
            base_url@,
            firmware_id as int,
            device_id@,
            expires,
            primary_key_id(),
            spec_signature(
                self.primary_key@,
                download_message(firmware_id as int, device_id@, expires, primary_key_id()),
            ),
        ) == r.0@);
        Some(r)
    }

    /// Checks a download link's parts at time `now`: an expired link is
    /// refused first, then a key id other than `primary` or `secondary`, then a
    /// signature that differs from the named key's signature of the parts.
    pub fn verify_download_signature_at(
        &self,
        firmware_id: i64,
        device_id: &str,
        expires: u64,
        key_id: &str,
        signature: &str,
        now: u64,
    ) -> (res: AppResult<()>)
        ensures
            res is Ok <==> spec_download_authorized(
                self.primary_key@,
                self.secondary_key@,
                firmware_id as int,
                device_id@,
                expires as int,
                key_id@,
                signature@,
                now as int,
            ),
            expires < now ==> res matches Err(AppError::UrlExpired),
            expires >= now && key_for(self.primary_key@, self.secondary_key@, key_id@) is None
                ==> (res matches Err(AppError::InvalidSignature(m)) && m@ == "Unknown key_id"@),
            expires >= now && key_for(self.primary_key@, self.secondary_key@, key_id@) is Some
                && res is Err ==> (res matches Err(AppError::InvalidSignature(m)) && m@
                == "Signature mismatch"@),
    {
        if expires < now {
            return Err(AppError::UrlExpired);
        }
        let mut message = String::new();
        append_download_message(&mut message, firmware_id, device_id, expires, key_id);
        assert(message@ =~= download_message(firmware_id as int, device_id@, expires as int, key_id@));
        let key: &str = if str_eq(key_id, "primary") {
            self.primary_key.as_str()
        } else if str_eq(key_id, "secondary") {
            self.secondary_key.as_str()
        } else {
            return Err(AppError::InvalidSignature("Unknown key_id".to_owned()));
        };
        let expected = sign_message(key, message.as_str());
        let same = constant_time_eq(signature.as_bytes(), expected.as_str().as_bytes());
        proof {
            encode_utf8_decode_utf8(signature@);
            encode_utf8_decode_utf8(expected@);
        }
        if !same {
            return Err(AppError::InvalidSignature("Signature mismatch".to_owned()));
        }
        Ok(())
    }

    /// Checks a download link's parts against the current time. When the
    /// system clock reads earlier than the Unix epoch the link cannot be
    /// checked, and that is an internal error.
    pub fn verify_download_signature(
        &self,
        firmware_id: i64,
        device_id: &str,
        expires: u64,
        key_id: &str,
        signature: &str,
    ) -> (res: AppResult<()>)
        ensures
            res is Ok ==> exists|now: int|
                #[trigger] spec_download_authorized(
                    self.primary_key@,
                    self.secondary_key@,
                    firmware_id as int,
                    device_id@,
                    expires as int,
                    key_id@,
                    signature@,
                    now,
                ),
            res is Err ==> res matches Err(AppError::UrlExpired) || res matches Err(
                AppError::InvalidSignature(_),
            ) || (res matches Err(AppError::Internal(m)) && m@ == clock_error_text()),
    {
        match unix_time_secs() {
            Some(now) => self.verify_download_signature_at(
                firmware_id,
                device_id,
                expires,
                key_id,
                signature,
                now,
            ),
            None => Err(AppError::Internal("System time before Unix epoch".to_owned())),
        }
    }

    /// Replaces the primary and the secondary key.
    pub fn reload_keys(&mut self, pool_keys: (String, String))
        ensures
            final(self).primary_key@ == pool_keys.0@,
            final(self).secondary_key@ == pool_keys.1@,
            final(self).url_expiry_secs == old(self).url_expiry_secs,
    {
        self.primary_key = pool_keys.0;
        self.secondary_key = pool_keys.1;
    }
}

/// Id of a new primary key after a rotation: `key-` and a fresh UUID.
pub fn new_rotation_key_id() -> (key_id: String)
    ensures
        exists|u: Seq<char>| #[trigger] is_uuid_v4_text(u) && key_id@ == "key-"@ + u,
{
    let mut key_id = "key-".to_owned();
    let unique = new_uuid_v4();
    key_id.append(unique.as_str());
    assert(is_uuid_v4_text(unique@));
    key_id
}

/// A link issued at time `t` is honoured at every time from `t` to its
/// expiry: the signature it carries is the primary key's signature of its
/// parts, and its key id is `primary`.
pub proof fn lemma_issued_link_verifies(
    primary: Seq<char>,
    secondary: Seq<char>,
    firmware_id: int,
    device_id: Seq<char>,
    expires: int,
    now: int,
)
    requires
        now <= expires,
    ensures
        spec_download_authorized(
            primary,
            secondary,
            firmware_id,
            device_id,
            expires,
            primary_key_id(),
            spec_signature(
                primary,
                download_message(firmware_id, device_id, expires, primary_key_id()),
            ),
            now,
        ),
{
}

/// No link is honoured after its expiry time, whatever it carries.
pub proof fn lemma_expired_link_refused(
    primary: Seq<char>,
    secondary: Seq<char>,
    firmware_id: int,
    device_id: Seq<char>,
    expires: int,
    key_id: Seq<char>,
    signature: Seq<char>,
    now: int,
)
    requires
        now > expires,
    ensures
        !spec_download_authorized(
            primary,
            secondary,
            firmware_id,
            device_id,
            expires,
            key_id,
            signature,
            now,
        ),
{
}

/// A link whose key id is neither `primary` nor `secondary` is never honoured.
pub proof fn lemma_unknown_key_refused(
    primary: Seq<char>,
    secondary: Seq<char>,
    firmware_id: int,
    device_id: Seq<char>,
    expires: int,
    key_id: Seq<char>,
    signature: Seq<char>,
    now: int,
)
    requires
        key_id != "primary"@,
        key_id != "secondary"@,
    ensures
        !spec_download_authorized(
            primary,
            secondary,
            firmware_id,
            device_id,
            expires,
            key_id,
            signature,
            now,
        ),
{
}

} // verus!
