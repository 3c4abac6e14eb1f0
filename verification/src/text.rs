//! Decimal numbers, character scanning and string assembly over `Seq<char>`.
use vstd::prelude::*;

verus! {

/// The ASCII digit for `d` (`0 <= d < 10`).
pub open spec fn digit_char(d: int) -> char {
    (48 + d) as char
}

pub open spec fn is_ascii_digit(c: char) -> bool {
    '0' <= c && c <= '9'
}

pub open spec fn digit_value(c: char) -> int {
    c as int - 48
}

/// Decimal text of a natural number, without sign or leading zeros.
pub open spec fn dec_nat(n: nat) -> Seq<char>
    decreases n,
{
    if n < 10 {
        seq![digit_char(n as int)]
    } else {
        dec_nat(n / 10).push(digit_char((n % 10) as int))
    }
}

/// Decimal text of an integer, as `{}` formats it: a `-` before negative numbers.
pub open spec fn dec_int(i: int) -> Seq<char> {
    if i < 0 {
        seq!['-'] + dec_nat((-i) as nat)
    } else {
        dec_nat(i as nat)
    }
}

pub open spec fn all_digits(s: Seq<char>) -> bool {
    forall|i: int| 0 <= i < s.len() ==> is_ascii_digit(#[trigger] s[i])
}

/// The number that a string of decimal digits denotes.
pub open spec fn digits_value(s: Seq<char>) -> nat
    decreases s.len(),
{
    if s.len() == 0 {
        0
    } else {
        (digits_value(s.drop_last()) * 10 + digit_value(s.last())) as nat
    }
}

/// The digits that `parse::<uN>()` reads: an optional leading `+` is dropped.
pub open spec fn unsigned_body(s: Seq<char>) -> Seq<char> {
    if s.len() > 0 && s[0] == '+' {
        s.drop_first()
    } else {
        s
    }
}

/// What `str::parse` gives for an unsigned integer type whose largest value
/// is `max`: the value when the text is an optional `+` followed by one or
/// more ASCII digits denoting at most `max`, and nothing otherwise.
pub open spec fn parse_unsigned(s: Seq<char>, max: nat) -> Option<nat> {
    let body = unsigned_body(s);
    if body.len() > 0 && all_digits(body) && digits_value(body) <= max {
        Some(digits_value(body))
    } else {
        None
    }
}

/// Number of occurrences of `c` in `s`.
pub open spec fn count_char(s: Seq<char>, c: char) -> nat
    decreases s.len(),
{
    if s.len() == 0 {
        0
    } else {
        count_char(s.drop_last(), c) + if s.last() == c { 1nat } else { 0nat }
    }
}

/// Position of the first `c` in `s` (meaningful when `s` contains `c`).
pub open spec fn first_index_of(s: Seq<char>, c: char) -> int
    decreases s.len(),
{
    if s.len() == 0 {
        0
    } else if s[0] == c {
        0
    } else {
        1 + first_index_of(s.drop_first(), c)
    }
}

/// The two pieces of `split(c)` when `s` holds exactly one `c`.
pub open spec fn split_before(s: Seq<char>, c: char) -> Seq<char> {
    s.take(first_index_of(s, c))
}

pub open spec fn split_after(s: Seq<char>, c: char) -> Seq<char> {
    s.skip(first_index_of(s, c) + 1)
}

pub proof fn lemma_dec_nat_nonempty(n: nat)
    ensures
        dec_nat(n).len() >= 1,
    decreases n,
{
    if n >= 10 {
        lemma_dec_nat_nonempty(n / 10);
    }
}

pub proof fn lemma_count_char_push(s: Seq<char>, x: char, c: char)
    ensures
        count_char(s.push(x), c) == count_char(s, c) + if x == c { 1nat } else { 0nat },
{
    assert(s.push(x).drop_last() =~= s);
}

/// `first_index_of` lies inside `s` when `s` holds `c`, and nothing before it is `c`.
pub proof fn lemma_first_index_of(s: Seq<char>, c: char, k: int)
    requires
        0 <= k < s.len(),
        s[k] == c,
        forall|j: int| 0 <= j < k ==> s[j] != c,
    ensures
        first_index_of(s, c) == k,
    decreases s.len(),
{
    if k > 0 {
        assert(s[0] != c);
        let t = s.drop_first();
        assert forall|j: int| 0 <= j < k - 1 implies t[j] != c by {
            assert(t[j] == s[j + 1]);
        }
        lemma_first_index_of(t, c, k - 1);
    }
}

/// Appends one character (`String::push`).
#[verifier::external_body]
pub(crate) fn push_char(s: &mut String, c: char)
    ensures
        final(s)@ == old(s)@.push(c),
{
    s.push(c)
}

/// The ASCII digit for `d < 10`.
pub fn digit_to_char(d: u64) -> (c: char)
    requires
        d < 10,
    ensures
        c == digit_char(d as int),
{
    (48u8 + d as u8) as char
}

/// Appends the decimal text of `n`.
pub fn append_dec_u64(out: &mut String, n: u64)
    ensures
        final(out)@ == old(out)@ + dec_nat(n as nat),
    decreases n,
{
    if n >= 10 {
        append_dec_u64(out, n / 10);
    }
    push_char(out, digit_to_char(n % 10));
    proof {
        if n >= 10 {
            assert(dec_nat(n as nat) == dec_nat((n / 10) as nat).push(digit_char((n % 10) as int)));
        }
    }
}

/// Appends the decimal text of `i`, with a `-` before a negative number.
pub fn append_dec_i64(out: &mut String, i: i64)
    ensures
        final(out)@ == old(out)@ + dec_int(i as int),
{
    if i < 0 {
        let ghost before = out@;
        push_char(out, '-');
        let magnitude: u64 = (-(i as i128)) as u64;
        append_dec_u64(out, magnitude);
        assert(out@ =~= before + (seq!['-'] + dec_nat(magnitude as nat)));
    } else {
        append_dec_u64(out, i as u64);
    }
}

/// The decimal text of `n`.
pub fn u64_to_dec(n: u64) -> (s: String)
    ensures
        s@ == dec_nat(n as nat),
{
    let mut s = String::new();
    append_dec_u64(&mut s, n);
    assert(s@ =~= dec_nat(n as nat));
    s
}

/// The decimal text of `i`.
pub fn i64_to_dec(i: i64) -> (s: String)
    ensures
        s@ == dec_int(i as int),
{
    let mut s = String::new();
    append_dec_i64(&mut s, i);
    assert(s@ =~= dec_int(i as int));
    s
}

/// The characters of `s`, in order.
pub fn str_chars(s: &str) -> (v: Vec<char>)
    ensures
        v@ == s@,
{
    let mut v: Vec<char> = Vec::new();
    for c in it: s.chars()
        invariant
            v@ == it.seq().take(it.index() as int),
            it.seq() == s@,
    {
        v.push(c);
    }
    v
}

/// Whether two strings hold the same characters.
pub fn str_eq(a: &str, b: &str) -> (eq: bool)
    ensures
        eq == (a@ == b@),
{
    let x = str_chars(a);
    let y = str_chars(b);
    if x.len() != y.len() {
        return false;
    }
    let n = x.len();
    let mut i: usize = 0;
    while i < n
        invariant
            n == x@.len(),
            n == y@.len(),
            x@ == a@,
            y@ == b@,
            i <= n,
            forall|j: int| 0 <= j < i ==> x@[j] == y@[j],
        decreases n - i,
    {
        if x[i] != y[i] {
            return false;
        }
        i = i + 1;
    }
    assert(x@ =~= y@);
    true
}

/// Number of occurrences of `c` in `v[lo..hi]`, together with the position of the
/// first one (or `hi` when there is none).
pub fn scan_char(v: &Vec<char>, lo: usize, hi: usize, c: char) -> (res: (usize, usize))
    requires
        lo <= hi <= v@.len(),
    ensures
        res.0 == count_char(v@.subrange(lo as int, hi as int), c),
        lo <= res.1 <= hi,
        res.1 < hi ==> v@[res.1 as int] == c,
        forall|j: int| lo <= j < res.1 ==> v@[j] != c,
        res.1 == hi ==> res.0 == 0,
{
    let mut count: usize = 0;
    let mut first: usize = hi;
    let mut i = lo;
    while i < hi
        invariant
            lo <= i <= hi <= v@.len(),
            count as nat == count_char(v@.subrange(lo as int, i as int), c),
            count <= i - lo,
            first == hi ==> count == 0,
            first == hi || (lo <= first < i && v@[first as int] == c),
            forall|j: int| lo <= j < i && j < first ==> v@[j] != c,
        decreases hi - i,
    {
        proof {
            assert(v@.subrange(lo as int, i + 1) =~= v@.subrange(lo as int, i as int).push(v@[i as int]));
            lemma_count_char_push(v@.subrange(lo as int, i as int), v@[i as int], c);
        }
        if v[i] == c {
            if first == hi {
                first = i;
            }
            count = count + 1;
        }
        i = i + 1;
    }
    (count, first)
}

/// Value of the decimal digits `v[lo..hi]` when it is at most `max`.
fn digits_to_u64(v: &Vec<char>, lo: usize, hi: usize, max: u64) -> (res: Option<u64>)
    requires
        lo <= hi <= v@.len(),
        all_digits(v@.subrange(lo as int, hi as int)),
    ensures
        match res {
            Some(x) => x as nat == digits_value(v@.subrange(lo as int, hi as int))
                && x <= max,
            None => digits_value(v@.subrange(lo as int, hi as int)) > max,
        },
{
    let mut acc: u64 = 0;
    let mut i = lo;
    while i < hi
        invariant
            lo <= i <= hi <= v@.len(),
            all_digits(v@.subrange(lo as int, hi as int)),
            acc as nat == digits_value(v@.subrange(lo as int, i as int)),
            acc <= max,
        decreases hi - i,
    {
        let c = v[i];
        assert(v@.subrange(lo as int, hi as int)[i - lo] == c);
        let d: u64 = (c as u32 - 48u32) as u64;
        let ghost pre = v@.subrange(lo as int, i as int);
        let ghost post = v@.subrange(lo as int, i + 1);
        assert(post.drop_last() =~= pre);
        assert(post.last() == c);
        assert(digits_value(post) == digits_value(pre) * 10 + d);
        if d > max || acc > (max - d) / 10 {
            proof {
                lemma_digits_value_prefix_mono(v@.subrange(lo as int, hi as int), (i + 1 - lo) as int);
                assert(v@.subrange(lo as int, hi as int).take((i + 1 - lo) as int) =~= post);
                if d <= max {
                    assert(acc * 10 + d > max) by (nonlinear_arith)
                        requires acc > (max - d) / 10, d <= max;
                }
            }
            return None;
        }
        assert(acc * 10 + d <= max) by (nonlinear_arith)
            requires acc <= (max - d) / 10, d <= max;
        acc = acc * 10 + d;
        i = i + 1;
    }
    Some(acc)
}

/// The value of a digit string never drops when digits are appended.
proof fn lemma_digits_value_prefix_mono(s: Seq<char>, k: int)
    requires
        0 <= k <= s.len(),
        all_digits(s),
    ensures
        digits_value(s.take(k)) <= digits_value(s),
    decreases s.len() - k,
{
    if k < s.len() {
        lemma_digits_value_prefix_mono(s, k + 1);
        let t = s.take(k + 1);
        assert(t.drop_last() =~= s.take(k));
        assert(is_ascii_digit(s[k]));
        assert(t.last() == s[k]);
    } else {
        assert(s.take(k) =~= s);
    }
}

/// `str::parse` for an unsigned type whose largest value is `max`, on `v[lo..hi]`.
pub fn parse_unsigned_chars(v: &Vec<char>, lo: usize, hi: usize, max: u64) -> (res: Option<u64>)
    requires
        lo <= hi <= v@.len(),
    ensures
        match parse_unsigned(v@.subrange(lo as int, hi as int), max as nat) {
            Some(x) => res == Some(x as u64),
            None => res is None,
        },
{
    let ghost s = v@.subrange(lo as int, hi as int);
    let mut start = lo;
    if lo < hi && v[lo] == '+' {
        start = lo + 1;
        assert(unsigned_body(s) =~= v@.subrange(start as int, hi as int));
    } else {
        assert(unsigned_body(s) =~= v@.subrange(start as int, hi as int));
    }
    if start == hi {
        assert(unsigned_body(s).len() == 0);
        return None;
    }
    let mut i = start;
    while i < hi
        invariant
            start <= i <= hi <= v@.len(),
            s == v@.subrange(lo as int, hi as int),
            unsigned_body(s) == v@.subrange(start as int, hi as int),
            forall|j: int| start <= j < i ==> is_ascii_digit(#[trigger] v@[j]),
        decreases hi - i,
    {
        let c = v[i];
        if !('0' <= c && c <= '9') {
            assert(!is_ascii_digit(v@.subrange(start as int, hi as int)[i - start]));
            return None;
        }
        i = i + 1;
    }
    assert(all_digits(v@.subrange(start as int, hi as int)));
    digits_to_u64(v, start, hi, max)
}

} // verus!
