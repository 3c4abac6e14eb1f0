//! Values that come from the machine rather than from the arguments: the
//! clock and fresh random identifiers. Nothing is known of them beyond their
//! ranges, so every function that uses one also exists in a form that takes
//! the value as an argument.
use vstd::prelude::*;
use rand::RngCore;

verus! {

/// Seconds since the Unix epoch, from `SystemTime::now().duration_since(UNIX_EPOCH)`;
/// nothing when the system clock reads earlier than the epoch.
#[verifier::external_body]
pub(crate) fn unix_time_secs() -> Option<u64> {
    match std::time::SystemTime::now().duration_since(std::time::UNIX_EPOCH) {
        Ok(d) => Some(d.as_secs()),
        Err(_) => None,
    }
}

pub open spec fn is_lower_hex_digit(c: char) -> bool {
    ('0' <= c && c <= '9') || ('a' <= c && c <= 'f')
}

/// The hyphenated lower-case text of a random (version 4, RFC 4122 variant)
/// UUID: 36 characters, hyphens at 8, 13, 18 and 23, hex digits elsewhere,
/// the version digit `4` at 14 and a variant digit of `8`, `9`, `a` or `b` at 19.
pub open spec fn is_uuid_v4_text(s: Seq<char>) -> bool {
    &&& s.len() == 36
    &&& forall|i: int|
        0 <= i < 36 ==> if i == 8 || i == 13 || i == 18 || i == 23 {
            #[trigger] s[i] == '-'
        } else {
            is_lower_hex_digit(s[i])
        }
    &&& s[14] == '4'
    &&& (s[19] == '8' || s[19] == '9' || s[19] == 'a' || s[19] == 'b')
}

/// A fresh random UUID in its hyphenated text form, from `uuid::Uuid::new_v4()`,
/// which sets the version and variant bits of random bits and writes them as
/// lower-case hex.
#[verifier::external_body]
pub(crate) fn new_uuid_v4() -> (text: String)
    ensures
        is_uuid_v4_text(text@),
{
    uuid::Uuid::new_v4().to_string()
}

/// Twelve random bytes from `rand::thread_rng().fill_bytes`.
#[verifier::external_body]
pub(crate) fn random_nonce() -> (nonce: Vec<u8>)
    ensures
        nonce@.len() == 12,
{
    let mut bytes = [0u8; 12];
    rand::thread_rng().fill_bytes(&mut bytes);
    bytes.to_vec()
}

} // verus!
