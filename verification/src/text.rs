//! Text helpers shared by the state modules.

use vstd::prelude::*;
use vstd::std_specs::iter::IteratorSpec;
use vstd::string::*;

verus! {

broadcast use vstd::string::group_string_axioms;

/// Number of line feeds in `text`.
pub open spec fn newline_count(text: Seq<char>) -> nat
    decreases text.len(),
{
    if text.len() == 0 {
        0
    } else {
        newline_count(text.drop_last()) + if text.last() == '\n' {
            1nat
        } else {
            0nat
        }
    }
}

/// Number of lines of `text`: every line feed ends a line, and a last line
/// needs no line feed to count.
pub open spec fn line_count_of(text: Seq<char>) -> nat {
    newline_count(text) + if text.len() > 0 && text.last() != '\n' {
        1nat
    } else {
        0nat
    }
}

/// A text never holds more line feeds than characters.
pub proof fn lemma_newline_count_bounded(text: Seq<char>)
    ensures
        newline_count(text) <= text.len(),
        text.len() > 0 && text.last() != '\n' ==> newline_count(text) < text.len(),
    decreases text.len(),
{
    if text.len() > 0 {
        lemma_newline_count_bounded(text.drop_last());
    }
}

/// Counts the lines of `text`.
pub fn line_count(text: &str) -> (count: usize)
    ensures
        count == line_count_of(text@),
{
    let total = text.unicode_len();
    let mut newlines: usize = 0;
    let mut open_line = false;
    let mut seen: usize = 0;
    let mut chars = text.chars();
    loop
        invariant
            total == text@.len(),
            seen <= total,
            chars.remaining() == text@.skip(seen as int),
            newlines == newline_count(text@.take(seen as int)),
            open_line == (seen > 0 && text@[seen - 1] != '\n'),
            chars.obeys_prophetic_iter_laws(),
        ensures
            seen == total,
        decreases total - seen,
    {
        let next = chars.next();
        match next {
            None => {
                break;
            },
            Some(ch) => {
                proof {
                    lemma_newline_count_bounded(text@.take(seen + 1));
                    assert(text@.take(seen + 1).drop_last() == text@.take(seen as int));
                }
                if ch == '\n' {
                    newlines = newlines + 1;
                    open_line = false;
                } else {
                    open_line = true;
                }
                seen = seen + 1;
            },
        }
    }
    proof {
        assert(text@.take(seen as int) == text@);
        lemma_newline_count_bounded(text@);
    }
    if open_line {
        newlines + 1
    } else {
        newlines
    }
}

/// Value of a decimal digit, if `c` is one.
pub open spec fn digit_value(c: char) -> Option<nat> {
    if '0' <= c && c <= '9' {
        Some((c as nat - '0' as nat) as nat)
    } else {
        None
    }
}

/// Value of a run of decimal digits, most significant first; `None` where a
/// character is no digit. The empty run has the value 0.
pub open spec fn digits_value(digits: Seq<char>) -> Option<nat>
    decreases digits.len(),
{
    if digits.len() == 0 {
        Some(0)
    } else {
        match (digits_value(digits.drop_last()), digit_value(digits.last())) {
            (Some(high), Some(low)) => Some(10 * high + low),
            _ => None,
        }
    }
}

/// What a text denotes as an unsigned decimal number: an optional `+`, then
/// one digit or more, nothing else, and a value that a `usize` holds.
pub open spec fn decimal_usize(text: Seq<char>) -> Option<usize> {
    let digits = if text.len() > 0 && text[0] == '+' {
        text.drop_first()
    } else {
        text
    };
    if digits.len() == 0 {
        None
    } else {
        match digits_value(digits) {
            Some(value) => if value <= usize::MAX {
                Some(value as usize)
            } else {
                None
            },
            None => None,
        }
    }
}

/// Trusted: `str::parse::<usize>` of the standard library. Claimed: it
/// accepts exactly an optional `+` followed by one or more decimal digits
/// whose value fits, and returns that value; every other text is an error,
/// which is handed back as `None`.
#[verifier::external_body]
pub(crate) fn parse_decimal(text: &str) -> (value: Option<usize>)
    ensures
        value == decimal_usize(text@),
{
    match text.parse::<usize>() {
        Ok(value) => Some(value),
        Err(_) => None,
    }
}

/// Trusted: `str::starts_with` of the standard library, with a string
/// pattern. Claimed: it is true exactly when the characters of `prefix` are
/// the first characters of `text`.
#[verifier::external_body]
pub(crate) fn starts_with(text: &str, prefix: &str) -> (found: bool)
    ensures
        found == prefix@.is_prefix_of(text@),
{
    text.starts_with(prefix)
}

/// Trusted: `String::push` of the standard library. Claimed: it appends `ch`
/// and changes nothing else.
#[verifier::external_body]
pub(crate) fn push_char(text: &mut String, ch: char)
    ensures
        final(text)@ == old(text)@.push(ch),
{
    text.push(ch)
}

/// Trusted: `String::pop` of the standard library. Claimed: it removes and
/// returns the last character, and leaves an empty string as it is.
#[verifier::external_body]
pub(crate) fn pop_char(text: &mut String) -> (removed: Option<char>)
    ensures
        old(text)@.len() == 0 ==> removed is None && final(text)@ == old(text)@,
        old(text)@.len() > 0 ==> removed == Some(old(text)@.last()) && final(text)@ == old(
            text,
        )@.drop_last(),
{
    text.pop()
}

} // verus!
