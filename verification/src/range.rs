//! HTTP `Range: bytes=start-end` requests on a firmware image.
use vstd::prelude::*;

use crate::error::{AppError, AppResult, bad_request};
use crate::text::{
    append_dec_u64, count_char, dec_nat, first_index_of, lemma_first_index_of, parse_unsigned,
    parse_unsigned_chars, push_char, scan_char, split_after, split_before, str_chars,
};

verus! {

/// Why a `Range` header was refused.
#[derive(Clone, Copy, PartialEq, Eq, Debug)]
pub enum RangeError {
    MissingPrefix,
    BadFormat,
    BadStart,
    BadEnd,
    StartAfterEnd,
}

pub open spec fn bytes_prefix() -> Seq<char> {
    seq!['b', 'y', 't', 'e', 's', '=']
}

pub open spec fn has_bytes_prefix(s: Seq<char>) -> bool {
    s.len() >= 6 && s.take(6) == bytes_prefix()
}

pub open spec fn u64_max() -> nat {
    0xffff_ffff_ffff_ffffnat
}

/// The requested first byte, when the text before `-` is acceptable.
pub open spec fn range_start(a: Seq<char>) -> Option<nat> {
    if a.len() == 0 {
        Some(0)
    } else {
        parse_unsigned(a, u64_max())
    }
}

/// The requested last byte, cut at the end of the file.
pub open spec fn range_end(b: Seq<char>, file_size: int) -> Option<int> {
    if b.len() == 0 {
        Some(file_size - 1)
    } else {
        match parse_unsigned(b, u64_max()) {
            Some(e) => Some(if e <= file_size - 1 { e as int } else { file_size - 1 }),
            None => None,
        }
    }
}

/// The inclusive byte range that `s` asks of a file of `file_size` bytes.
pub open spec fn spec_parse_range(s: Seq<char>, file_size: int) -> Result<(int, int), RangeError> {
    if !has_bytes_prefix(s) {
        Err(RangeError::MissingPrefix)
    } else {
        let r = s.skip(6);
        if count_char(r, '-') != 1 {
            Err(RangeError::BadFormat)
        } else {
            match range_start(split_before(r, '-')) {
                None => Err(RangeError::BadStart),
                Some(start) => match range_end(split_after(r, '-'), file_size) {
                    None => Err(RangeError::BadEnd),
                    Some(end) => if start > end {
                        Err(RangeError::StartAfterEnd)
                    } else {
                        Ok((start as int, end))
                    },
                },
            }
        }
    }
}

/// Whether the text after `-` is acceptable as the requested last byte:
/// empty, or an unsigned 64-bit number.
pub open spec fn range_end_reads(b: Seq<char>) -> bool {
    b.len() == 0 || parse_unsigned(b, u64_max()) is Some
}

/// Whether parsing `s` gets as far as using the last byte of the file: the
/// prefix, the single `-`, the start and the end all read.
pub open spec fn range_needs_file_end(s: Seq<char>) -> bool {
    &&& has_bytes_prefix(s)
    &&& count_char(s.skip(6), '-') == 1
    &&& range_start(split_before(s.skip(6), '-')) is Some
    &&& range_end_reads(split_after(s.skip(6), '-'))
}

pub open spec fn range_error_text(e: RangeError) -> Seq<char> {
    match e {
        RangeError::MissingPrefix => "Invalid Range format, expected bytes= prefix"@,
        RangeError::BadFormat => "Invalid Range format"@,
        RangeError::BadStart => "Invalid range start"@,
        RangeError::BadEnd => "Invalid range end"@,
        RangeError::StartAfterEnd => "Invalid range: start > end"@,
    }
}

pub fn range_error_to_app(e: RangeError) -> (err: AppError)
    ensures
        err matches AppError::BadRequest(m) && m@ == range_error_text(e),
{
    match e {
        RangeError::MissingPrefix => bad_request("Invalid Range format, expected bytes= prefix"),
        RangeError::BadFormat => bad_request("Invalid Range format"),
        RangeError::BadStart => bad_request("Invalid range start"),
        RangeError::BadEnd => bad_request("Invalid range end"),
        RangeError::StartAfterEnd => bad_request("Invalid range: start > end"),
    }
}

/// The inclusive byte range that the characters `v` ask of a file of `file_size` bytes.
pub fn parse_range_chars(v: &Vec<char>, file_size: u64) -> (res: Result<(u64, u64), RangeError>)
    requires
        file_size >= 1 || !range_needs_file_end(v@),
    ensures
        match spec_parse_range(v@, file_size as int) {
            Ok((a, b)) => res == Ok::<(u64, u64), RangeError>((a as u64, b as u64)),
            Err(e) => res == Err::<(u64, u64), RangeError>(e),
        },
{
    let n = v.len();
    if n < 6 || v[0] != 'b' || v[1] != 'y' || v[2] != 't' || v[3] != 'e' || v[4] != 's' || v[5]
        != '=' {
        proof {
            if has_bytes_prefix(v@) {
                assert(v@.take(6)[0] == 'b' && v@.take(6)[1] == 'y' && v@.take(6)[2] == 't');
                assert(v@.take(6)[3] == 'e' && v@.take(6)[4] == 's' && v@.take(6)[5] == '=');
            }
        }
        return Err(RangeError::MissingPrefix);
    }
    assert(v@.take(6) =~= bytes_prefix());
    let ghost r = v@.skip(6);
    assert(v@.subrange(6, n as int) =~= r);
    let (count, dash) = scan_char(v, 6, n, '-');
    if count != 1 {
        return Err(RangeError::BadFormat);
    }
    proof {
        lemma_first_index_of(r, '-', dash - 6);
        assert(split_before(r, '-') =~= v@.subrange(6, dash as int));
        assert(split_after(r, '-') =~= v@.subrange(dash + 1, n as int));
    }
    let start: u64 = if dash == 6 {
        0
    } else {
        match parse_unsigned_chars(v, 6, dash, u64::MAX) {
            Some(x) => x,
            None => {
                return Err(RangeError::BadStart);
            },
        }
    };
    let end: u64 = if dash + 1 == n {
        file_size - 1
    } else {
        match parse_unsigned_chars(v, dash + 1, n, u64::MAX) {
            Some(e) => if e <= file_size - 1 {
                e
            } else {
                file_size - 1
            },
            None => {
                return Err(RangeError::BadEnd);
            },
        }
    };
    if start > end {
        return Err(RangeError::StartAfterEnd);
    }
    Ok((start, end))
}

/// Reads a `Range` header value such as `bytes=0-1023` against a file of
/// `file_size` bytes. A missing start means byte 0 and a missing end the last
/// byte; an end past the file is cut to its last byte.
pub fn parse_range(range_str: &str, file_size: u64) -> (res: AppResult<(u64, u64)>)
    requires
        file_size >= 1 || !range_needs_file_end(range_str@),
    ensures
        match spec_parse_range(range_str@, file_size as int) {
            Ok((a, b)) => res matches Ok(p) && p.0 == a && p.1 == b,
            Err(e) => res matches Err(AppError::BadRequest(m)) && m@ == range_error_text(e),
        },
        res matches Ok(p) ==> p.0 <= p.1 && p.1 < file_size,
{
    let v = str_chars(range_str);
    proof {
        lemma_range_within_file(range_str@, file_size as int);
    }
    match parse_range_chars(&v, file_size) {
        Ok(p) => Ok(p),
        Err(e) => Err(range_error_to_app(e)),
    }
}

/// A range that is granted lies inside the file: its first byte is at most its
/// last byte, and its last byte is a byte of the file.
pub proof fn lemma_range_within_file(s: Seq<char>, file_size: int)
    requires
        file_size >= 1 || !range_needs_file_end(s),
    ensures
        spec_parse_range(s, file_size) matches Ok((a, b)) ==> 0 <= a <= b < file_size,
{
}

/// How a download request is served.
pub enum DownloadPlan {
    /// The whole file, with status 200.
    Whole,
    /// Bytes `start..=end`, with status 206 and the given `Content-Range` value.
    Partial { start: u64, end: u64, content_range: String },
}

/// Whether `HeaderValue::to_str` accepts the byte: visible ASCII or a tab.
pub open spec fn is_visible_ascii(b: u8) -> bool {
    (32 <= b && b < 127) || b == 9
}

pub open spec fn header_chars(bytes: Seq<u8>) -> Seq<char> {
    bytes.map_values(|b: u8| b as char)
}

pub open spec fn all_visible_ascii(bytes: Seq<u8>) -> bool {
    forall|i: int| 0 <= i < bytes.len() ==> is_visible_ascii(#[trigger] bytes[i])
}

/// Whether serving a `Range` header with these bytes reads the file's last
/// byte position: the header is text and its range parses as far as its end.
pub open spec fn header_needs_file_end(bytes: Seq<u8>) -> bool {
    all_visible_ascii(bytes) && range_needs_file_end(header_chars(bytes))
}

/// The characters of a header whose bytes are all visible ASCII or tabs.
fn header_text(h: &[u8]) -> (res: Option<Vec<char>>)
    ensures
        match res {
            Some(v) => all_visible_ascii(h@) && v@ == header_chars(h@),
            None => !all_visible_ascii(h@),
        },
{
    let mut chars: Vec<char> = Vec::new();
    let mut i: usize = 0;
    while i < h.len()
        invariant
            i <= h@.len(),
            chars@ == header_chars(h@.take(i as int)),
            forall|j: int| 0 <= j < i ==> is_visible_ascii(#[trigger] h@[j]),
        decreases h@.len() - i,
    {
        let b = h[i];
        if !((32u8 <= b && b < 127u8) || b == 9u8) {
            return None;
        }
        chars.push(b as char);
        assert(h@.take(i + 1) =~= h@.take(i as int).push(b));
        assert(header_chars(h@.take(i + 1)) =~= header_chars(h@.take(i as int)).push(b as char));
        i = i + 1;
    }
    assert(h@.take(h@.len() as int) =~= h@);
    Some(chars)
}

/// Whether parsing the characters `v` gets as far as the file's last byte.
fn chars_need_file_end(v: &Vec<char>) -> (b: bool)
    ensures
        b == range_needs_file_end(v@),
{
    let n = v.len();
    if n < 6 || v[0] != 'b' || v[1] != 'y' || v[2] != 't' || v[3] != 'e' || v[4] != 's' || v[5]
        != '=' {
        proof {
            if has_bytes_prefix(v@) {
                assert(v@.take(6)[0] == 'b' && v@.take(6)[1] == 'y' && v@.take(6)[2] == 't');
                assert(v@.take(6)[3] == 'e' && v@.take(6)[4] == 's' && v@.take(6)[5] == '=');
            }
        }
        return false;
    }
    assert(v@.take(6) =~= bytes_prefix());
    let ghost r = v@.skip(6);
    assert(v@.subrange(6, n as int) =~= r);
    let (count, dash) = scan_char(v, 6, n, '-');
    if count != 1 {
        return false;
    }
    proof {
        lemma_first_index_of(r, '-', dash - 6);
        assert(split_before(r, '-') =~= v@.subrange(6, dash as int));
        assert(split_after(r, '-') =~= v@.subrange(dash + 1, n as int));
    }
    let start_reads = dash == 6 || parse_unsigned_chars(v, 6, dash, u64::MAX).is_some();
    let end_reads = dash + 1 == n || parse_unsigned_chars(v, dash + 1, n, u64::MAX).is_some();
    start_reads && end_reads
}

/// Whether serving a `Range` header with these bytes reads the file's last
/// byte position, which an empty file does not have.
pub fn range_header_needs_file_end(h: &[u8]) -> (b: bool)
    ensures
        b == header_needs_file_end(h@),
{
    match header_text(h) {
        Some(v) => chars_need_file_end(&v),
        None => false,
    }
}

pub open spec fn content_range_text(start: nat, end: nat, size: nat) -> Seq<char> {
    "bytes "@ + dec_nat(start) + seq!['-'] + dec_nat(end) + seq!['/'] + dec_nat(size)
}

/// Decides how to serve a download of a file of `file_size` bytes, given the
/// raw bytes of the request's `Range` header, if it has one.
pub fn plan_download(range_header: Option<&[u8]>, file_size: u64) -> (res: AppResult<DownloadPlan>)
    requires
        range_header matches Some(h) ==> (file_size >= 1 || !header_needs_file_end(h@)),
    ensures
        range_header is None ==> res matches Ok(DownloadPlan::Whole),
        range_header matches Some(h) ==> {
            if !all_visible_ascii(h@) {
                res matches Err(AppError::BadRequest(m)) && m@ == "Invalid Range header"@
            } else {
                match spec_parse_range(header_chars(h@), file_size as int) {
                    Ok((a, b)) => res matches Ok(DownloadPlan::Partial { start, end, content_range })
                        && start == a && end == b
                        && content_range@ == content_range_text(a as nat, b as nat, file_size as nat),
                    Err(e) => res matches Err(AppError::BadRequest(m)) && m@ == range_error_text(e),
                }
            }
        },
        res matches Ok(DownloadPlan::Partial { start, end, .. }) ==> start <= end < file_size,
{
    match range_header {
        None => Ok(DownloadPlan::Whole),
        Some(h) => {
            let chars = match header_text(h) {
                Some(v) => v,
                None => {
                    return Err(bad_request("Invalid Range header"));
                },
            };
            proof {
                lemma_range_within_file(chars@, file_size as int);
            }
            match parse_range_chars(&chars, file_size) {
                Err(e) => Err(range_error_to_app(e)),
                Ok((start, end)) => {
                    let mut content_range = "bytes ".to_owned();
                    append_dec_u64(&mut content_range, start);
                    push_char(&mut content_range, '-');
                    append_dec_u64(&mut content_range, end);
                    push_char(&mut content_range, '/');
                    append_dec_u64(&mut content_range, file_size);
                    assert(content_range@ =~= content_range_text(
                        start as nat,
                        end as nat,
                        file_size as nat,
                    ));
                    Ok(DownloadPlan::Partial { start, end, content_range })
                },
            }
        },
    }
}

} // verus!
