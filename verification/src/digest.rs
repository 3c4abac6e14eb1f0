//! Digests, message authentication codes and their hexadecimal text.
use vstd::prelude::*;
use hmac::Mac;
use sha2::Digest;

verus! {

/// SHA-256 of a byte string. What it computes is not restated here.
pub uninterp spec fn spec_sha256(data: Seq<u8>) -> Seq<u8>;

/// HMAC-SHA256 of `msg` under `key`. What it computes is not restated here.
pub uninterp spec fn spec_hmac_sha256(key: Seq<u8>, msg: Seq<u8>) -> Seq<u8>;

/// Text of the error that `hex::decode` reports for a string it refuses.
pub uninterp spec fn spec_hex_decode_error(s: Seq<char>) -> Seq<char>;

/// `sha2::Sha256::digest`: the digest of `data`, which is 32 bytes long.
#[verifier::external_body]
pub(crate) fn sha256(data: &[u8]) -> (digest: Vec<u8>)
    ensures
        digest@ == spec_sha256(data@),
        digest@.len() == 32,
{
    sha2::Sha256::digest(data).to_vec()
}

/// `hmac::Hmac<Sha256>` keyed with `key` (any key length is accepted) and fed
/// `msg`: the 32-byte tag.
#[verifier::external_body]
pub(crate) fn hmac_sha256(key: &[u8], msg: &[u8]) -> (tag: Vec<u8>)
    ensures
        tag@ == spec_hmac_sha256(key@, msg@),
        tag@.len() == 32,
{
    let mut mac = <hmac::Hmac<sha2::Sha256> as Mac>::new_from_slice(key).expect("any key length");
    mac.update(msg);
    mac.finalize().into_bytes().to_vec()
}

/// Lower-case hexadecimal digit of `d < 16`.
pub open spec fn hex_digit_lower(d: int) -> char {
    if d < 10 {
        (48 + d) as char
    } else {
        (87 + d) as char
    }
}

/// Lower-case hexadecimal text of a byte string, two digits per byte.
pub open spec fn hex_lower(b: Seq<u8>) -> Seq<char>
    decreases b.len(),
{
    if b.len() == 0 {
        Seq::empty()
    } else {
        hex_lower(b.drop_last()) + seq![
            hex_digit_lower(b.last() as int / 16),
            hex_digit_lower(b.last() as int % 16),
        ]
    }
}

pub open spec fn is_hex_char(c: char) -> bool {
    ('0' <= c && c <= '9') || ('a' <= c && c <= 'f') || ('A' <= c && c <= 'F')
}

pub open spec fn hex_char_value(c: char) -> int {
    if '0' <= c && c <= '9' {
        c as int - 48
    } else if 'a' <= c && c <= 'f' {
        c as int - 87
    } else {
        c as int - 55
    }
}

/// Whether `hex::decode` accepts the text: an even number of hexadecimal digits
/// of either case.
pub open spec fn hex_decodable(s: Seq<char>) -> bool {
    s.len() % 2 == 0 && forall|i: int| 0 <= i < s.len() ==> is_hex_char(#[trigger] s[i])
}

/// The bytes that a decodable hexadecimal text stands for.
pub open spec fn hex_decoded(s: Seq<char>) -> Seq<u8> {
    Seq::new(
        s.len() / 2,
        |i: int| (hex_char_value(s[2 * i]) * 16 + hex_char_value(s[2 * i + 1])) as u8,
    )
}

proof fn lemma_hex_digit_lower(d: int)
    requires
        0 <= d < 16,
    ensures
        is_hex_char(hex_digit_lower(d)),
        hex_char_value(hex_digit_lower(d)) == d,
{
    if d < 10 {
        assert((48 + d) as char as int == 48 + d);
    } else {
        assert((87 + d) as char as int == 87 + d);
    }
}

proof fn lemma_hex_lower_layout(b: Seq<u8>)
    ensures
        hex_lower(b).len() == 2 * b.len(),
        forall|i: int|
            0 <= i < b.len() ==> hex_lower(b)[2 * i] == hex_digit_lower(#[trigger] b[i] as int / 16)
                && hex_lower(b)[2 * i + 1] == hex_digit_lower(b[i] as int % 16),
    decreases b.len(),
{
    if b.len() > 0 {
        let p = b.drop_last();
        lemma_hex_lower_layout(p);
        assert forall|i: int| 0 <= i < b.len() implies hex_lower(b)[2 * i] == hex_digit_lower(
            #[trigger] b[i] as int / 16,
        ) && hex_lower(b)[2 * i + 1] == hex_digit_lower(b[i] as int % 16) by {
            if i < p.len() {
                assert(p[i] == b[i]);
            }
        }
    }
}

/// Lower-case hexadecimal text decodes back to the bytes it was made from.
pub proof fn lemma_hex_lower_decodes(b: Seq<u8>)
    ensures
        hex_decodable(hex_lower(b)),
        hex_decoded(hex_lower(b)) == b,
{
    let h = hex_lower(b);
    lemma_hex_lower_layout(b);
    assert forall|j: int| 0 <= j < h.len() implies is_hex_char(#[trigger] h[j]) by {
        let i = j / 2;
        assert(0 <= i < b.len());
        assert(b[i] == b[i]);
        lemma_hex_digit_lower(b[i] as int / 16);
        lemma_hex_digit_lower(b[i] as int % 16);
        assert(j == 2 * i || j == 2 * i + 1);
    }
    assert forall|i: int| 0 <= i < b.len() implies #[trigger] hex_decoded(h)[i] == b[i] by {
        assert(b[i] == b[i]);
        lemma_hex_digit_lower(b[i] as int / 16);
        lemma_hex_digit_lower(b[i] as int % 16);
        let v = b[i] as int;
        assert((v / 16) * 16 + v % 16 == v);
    }
    assert(hex_decoded(h) =~= b);
}

/// `hex::encode`: lower-case hexadecimal text of `data`.
#[verifier::external_body]
pub(crate) fn hex_encode(data: &[u8]) -> (text: String)
    ensures
        text@ == hex_lower(data@),
{
    hex::encode(data)
}

/// `hex::decode` of the bytes of `s`: the bytes when `s` is an even number of
/// hexadecimal digits, else the text of the error it reports.
#[verifier::external_body]
pub(crate) fn hex_decode(s: &str) -> (res: Result<Vec<u8>, String>)
    ensures
        res is Ok <==> hex_decodable(s@),
        res matches Ok(v) ==> v@ == hex_decoded(s@),
        res matches Err(t) ==> t@ == spec_hex_decode_error(s@),
{
    match hex::decode(s) {
        Ok(v) => Ok(v),
        Err(e) => Err(e.to_string()),
    }
}

/// Lower-case hexadecimal text of the SHA-256 digest of `data`.
pub fn sha256_hex(data: &[u8]) -> (text: String)
    ensures
        text@ == hex_lower(spec_sha256(data@)),
{
    let digest = sha256(data);
    hex_encode(digest.as_slice())
}

/// Equality of two byte strings whose running time depends only on their
/// lengths: every byte pair is folded into one accumulator with `|` and `^`.
pub fn constant_time_eq(a: &[u8], b: &[u8]) -> (eq: bool)
    ensures
        eq == (a@ == b@),
{
    if a.len() != b.len() {
        return false;
    }
    let n = a.len();
    let mut result: u8 = 0;
    let mut i: usize = 0;
    while i < n
        invariant
            n == a@.len(),
            n == b@.len(),
            i <= n,
            (result == 0) <==> (a@.subrange(0, i as int) =~= b@.subrange(0, i as int)),
        decreases n - i,
    {
        let x = a[i];
        let y = b[i];
        let r = result;
        assert((r | (x ^ y)) == 0u8 <==> (r == 0u8 && x == y)) by (bit_vector);
        result = result | (x ^ y);
        proof {
            assert(a@.subrange(0, i + 1) == a@.subrange(0, i as int).push(x));
            assert(b@.subrange(0, i + 1) == b@.subrange(0, i as int).push(y));
            if a@.subrange(0, i + 1) =~= b@.subrange(0, i + 1) {
                assert(a@.subrange(0, i + 1)[i as int] == b@.subrange(0, i + 1)[i as int]);
                assert(a@.subrange(0, i as int) =~= a@.subrange(0, i + 1).subrange(0, i as int));
                assert(b@.subrange(0, i as int) =~= b@.subrange(0, i + 1).subrange(0, i as int));
            }
        }
        i = i + 1;
    }
    assert(a@.subrange(0, n as int) =~= a@);
    assert(b@.subrange(0, n as int) =~= b@);
    result == 0
}

} // verus!
