//! Splitting a migration script into the statements that are run one by one.
use vstd::prelude::*;

use crate::text::push_char;

verus! {

/// `char::is_whitespace`: the characters with the Unicode `White_Space` property.
pub open spec fn is_white_space(c: char) -> bool {
    ||| ('\u{9}' <= c && c <= '\u{d}')
    ||| c == ' '
    ||| c == '\u{85}'
    ||| c == '\u{a0}'
    ||| c == '\u{1680}'
    ||| ('\u{2000}' <= c && c <= '\u{200a}')
    ||| c == '\u{2028}'
    ||| c == '\u{2029}'
    ||| c == '\u{202f}'
    ||| c == '\u{205f}'
    ||| c == '\u{3000}'
}

/// The text without its leading white space.
pub open spec fn trim_start(s: Seq<char>) -> Seq<char>
    decreases s.len(),
{
    if s.len() > 0 && is_white_space(s[0]) {
        trim_start(s.drop_first())
    } else {
        s
    }
}

/// The text without its trailing white space.
pub open spec fn trim_end(s: Seq<char>) -> Seq<char>
    decreases s.len(),
{
    if s.len() > 0 && is_white_space(s.last()) {
        trim_end(s.drop_last())
    } else {
        s
    }
}

/// `str::trim`: the text without leading and trailing white space.
pub open spec fn trimmed(s: Seq<char>) -> Seq<char> {
    trim_end(trim_start(s))
}

/// `str::trim`.
#[verifier::external_body]
fn trim(s: &str) -> (t: &str)
    ensures
        t@ == trimmed(s@),
{
    s.trim()
}

/// The pieces of `s` between occurrences of `c`, as `str::split` gives them:
/// one more piece than there are separators, empty pieces included.
pub open spec fn split_on(s: Seq<char>, c: char) -> Seq<Seq<char>>
    decreases s.len(),
{
    if s.len() == 0 {
        seq![Seq::empty()]
    } else {
        let before = split_on(s.drop_last(), c);
        if s.last() == c {
            before.push(Seq::empty())
        } else {
            before.update(before.len() - 1, before.last().push(s.last()))
        }
    }
}

/// The trimmed pieces that are not empty, in order.
pub open spec fn statements_of(pieces: Seq<Seq<char>>) -> Seq<Seq<char>>
    decreases pieces.len(),
{
    if pieces.len() == 0 {
        Seq::empty()
    } else {
        let before = statements_of(pieces.drop_last());
        let t = trimmed(pieces.last());
        if t.len() > 0 {
            before.push(t)
        } else {
            before
        }
    }
}

pub proof fn lemma_split_on_nonempty(s: Seq<char>, c: char)
    ensures
        split_on(s, c).len() >= 1,
    decreases s.len(),
{
    if s.len() > 0 {
        lemma_split_on_nonempty(s.drop_last(), c);
    }
}

/// The statements of a migration script: its pieces between `;`, trimmed,
/// without the empty ones.
pub fn split_sql_statements(sql: &str) -> (statements: Vec<String>)
    ensures
        statements@.len() == statements_of(split_on(sql@, ';')).len(),
        forall|i: int|
            0 <= i < statements@.len() ==> #[trigger] statements@[i]@ == statements_of(
                split_on(sql@, ';'),
            )[i],
{
    let mut statements: Vec<String> = Vec::new();
    let mut current = String::new();
    let ghost mut seen: Seq<char> = Seq::empty();
    for ch in it: sql.chars()
        invariant
            it.seq() == sql@,
            seen == it.seq().take(it.index() as int),
            split_on(seen, ';').len() >= 1,
            current@ == split_on(seen, ';').last(),
            statements@.len() == statements_of(split_on(seen, ';').drop_last()).len(),
            forall|i: int|
                0 <= i < statements@.len() ==> #[trigger] statements@[i]@ == statements_of(
                    split_on(seen, ';').drop_last(),
                )[i],
    {
        let ghost old_seen = seen;
        proof {
            seen = seen.push(ch);
            assert(seen.drop_last() =~= old_seen);
            lemma_split_on_nonempty(old_seen, ';');
        }
        if ch == ';' {
            let piece = trim(current.as_str()).to_owned();
            let ghost pieces = split_on(old_seen, ';');
            proof {
                assert(split_on(seen, ';').drop_last() =~= pieces);
                assert(pieces.drop_last().push(pieces.last()) =~= pieces);
            }
            if !piece.as_str().is_empty() {
                statements.push(piece);
            }
            current = String::new();
            proof {
                assert(current@ =~= split_on(seen, ';').last());
            }
        } else {
            let ghost pieces = split_on(old_seen, ';');
            push_char(&mut current, ch);
            proof {
                assert(split_on(seen, ';').drop_last() =~= pieces.drop_last());
            }
        }
    }
    proof {
        assert(seen =~= sql@);
    }
    let ghost pieces = split_on(sql@, ';');
    let last = trim(current.as_str()).to_owned();
    proof {
        lemma_split_on_nonempty(sql@, ';');
        assert(pieces.drop_last().push(pieces.last()) =~= pieces);
    }
    if !last.as_str().is_empty() {
        statements.push(last);
    }
    statements
}

} // verus!
