//! Reading what the user typed: trimming and decimal integers.

use vstd::prelude::*;

verus! {

/// The characters that count as whitespace: those with the Unicode property
/// `White_Space`.
pub open spec fn is_space(c: char) -> bool {
    ||| '\u{9}' <= c <= '\u{D}'
    ||| c == ' '
    ||| c == '\u{85}'
    ||| c == '\u{A0}'
    ||| c == '\u{1680}'
    ||| '\u{2000}' <= c <= '\u{200A}'
    ||| c == '\u{2028}'
    ||| c == '\u{2029}'
    ||| c == '\u{202F}'
    ||| c == '\u{205F}'
    ||| c == '\u{3000}'
}

/// A text without the whitespace at its start.
pub open spec fn trimmed_start(text: Seq<char>) -> Seq<char>
    decreases text.len(),
{
    if text.len() > 0 && is_space(text.first()) {
        trimmed_start(text.drop_first())
    } else {
        text
    }
}

/// A text without the whitespace at its end.
pub open spec fn trimmed_end(text: Seq<char>) -> Seq<char>
    decreases text.len(),
{
    if text.len() > 0 && is_space(text.last()) {
        trimmed_end(text.drop_last())
    } else {
        text
    }
}

/// A text without the whitespace that surrounds it.
pub open spec fn trimmed(text: Seq<char>) -> Seq<char> {
    trimmed_end(trimmed_start(text))
}

/// `text[start..end]` is the text between its first and its last character
/// that is not whitespace, or is empty where the text has no such character.
pub open spec fn is_core(text: Seq<char>, start: int, end: int) -> bool {
    &&& 0 <= start <= end <= text.len()
    &&& forall|k: int| 0 <= k < start ==> is_space(#[trigger] text[k])
    &&& forall|k: int| end <= k < text.len() ==> is_space(#[trigger] text[k])
    &&& start < end ==> !is_space(text[start]) && !is_space(text[end - 1])
}

/// Trimming the start removes the longest run of whitespace there: the
/// result begins at the first character that is not whitespace.
pub proof fn lemma_trimmed_start(text: Seq<char>) -> (start: int)
    ensures
        0 <= start <= text.len(),
        trimmed_start(text) == text.subrange(start, text.len() as int),
        forall|k: int| 0 <= k < start ==> is_space(#[trigger] text[k]),
        start < text.len() ==> !is_space(text[start]),
    decreases text.len(),
{
    if text.len() > 0 && is_space(text.first()) {
        let rest = text.drop_first();
        let inner = lemma_trimmed_start(rest);
        assert(rest.subrange(inner, rest.len() as int) =~= text.subrange(
            inner + 1,
            text.len() as int,
        ));
        assert forall|k: int| 0 <= k < inner + 1 implies is_space(#[trigger] text[k]) by {
            if k > 0 {
                assert(text[k] == rest[k - 1]);
            }
        }
        assert(inner < rest.len() ==> text[inner + 1] == rest[inner]);
        inner + 1
    } else {
        assert(text.subrange(0, text.len() as int) =~= text);
        0
    }
}

/// Trimming the end removes the longest run of whitespace there: the result
/// ends after the last character that is not whitespace.
pub proof fn lemma_trimmed_end(text: Seq<char>) -> (end: int)
    ensures
        0 <= end <= text.len(),
        trimmed_end(text) == text.subrange(0, end),
        forall|k: int| end <= k < text.len() ==> is_space(#[trigger] text[k]),
        0 < end ==> !is_space(text[end - 1]),
    decreases text.len(),
{
    if text.len() > 0 && is_space(text.last()) {
        let rest = text.drop_last();
        let inner = lemma_trimmed_end(rest);
        assert(rest.subrange(0, inner) =~= text.subrange(0, inner));
        assert forall|k: int| inner <= k < text.len() implies is_space(#[trigger] text[k]) by {
            if k < rest.len() {
                assert(text[k] == rest[k]);
            }
        }
        assert(0 < inner ==> text[inner - 1] == rest[inner - 1]);
        inner
    } else {
        assert(text.subrange(0, text.len() as int) =~= text);
        text.len() as int
    }
}

/// What trimming leaves is the stretch of the text from its first to its last
/// character that is not whitespace, with everything between them untouched.
pub proof fn lemma_trimmed_is_the_core(text: Seq<char>) -> (bounds: (int, int))
    ensures
        is_core(text, bounds.0, bounds.1),
        trimmed(text) == text.subrange(bounds.0, bounds.1),
{
    let start = lemma_trimmed_start(text);
    let tail = text.subrange(start, text.len() as int);
    let length = lemma_trimmed_end(tail);
    assert(tail.subrange(0, length) =~= text.subrange(start, start + length));
    assert forall|k: int| start + length <= k < text.len() implies is_space(#[trigger] text[k]) by {
        assert(text[k] == tail[k - start]);
    }
    if length > 0 {
        assert(tail[length - 1] == text[start + length - 1]);
        assert(tail[0] == text[start]);
    }
    (start, start + length)
}

/// Whether a character is whitespace.
pub fn is_whitespace(c: char) -> (b: bool)
    ensures
        b == is_space(c),
{
    ('\u{9}' <= c && c <= '\u{D}') || c == ' ' || c == '\u{85}' || c == '\u{A0}' || c == '\u{1680}'
        || ('\u{2000}' <= c && c <= '\u{200A}') || c == '\u{2028}' || c == '\u{2029}' || c
        == '\u{202F}' || c == '\u{205F}' || c == '\u{3000}'
}

/// The characters of a text, one by one.
pub fn characters(text: &str) -> (chars: Vec<char>)
    ensures
        chars@ == text@,
{
    let mut chars: Vec<char> = Vec::new();
    for c in it: text.chars()
        invariant
            it.seq() == text@,
            chars@ == it.seq().take(it.index() as int),
    {
        assert(it.seq().take(it.index() + 1) =~= it.seq().take(it.index() as int).push(c));
        chars.push(c);
    }
    assert(text@.take(text@.len() as int) =~= text@);
    chars
}

/// Removes the whitespace around a text.
pub fn trim(text: &str) -> (core: String)
    ensures
        core@ == trimmed(text@),
{
    let chars = characters(text);
    let n = chars.len();
    let mut start: usize = 0;
    assert(text@.subrange(0, n as int) =~= text@);
    while start < n && is_whitespace(chars[start])
        invariant
            start <= n,
            n == text@.len(),
            chars@ == text@,
            trimmed_start(text@) == trimmed_start(text@.subrange(start as int, n as int)),
        decreases n - start,
    {
        assert(text@.subrange(start as int, n as int).drop_first() =~= text@.subrange(
            start + 1,
            n as int,
        ));
        start += 1;
    }
    assert(trimmed_start(text@) == text@.subrange(start as int, n as int));
    let mut end: usize = n;
    while end > start && is_whitespace(chars[end - 1])
        invariant
            start <= end <= n,
            n == text@.len(),
            chars@ == text@,
            trimmed(text@) == trimmed_end(text@.subrange(start as int, end as int)),
        decreases end - start,
    {
        assert(text@.subrange(start as int, end as int).drop_last() =~= text@.subrange(
            start as int,
            end - 1,
        ));
        end -= 1;
    }
    assert(trimmed(text@) == text@.subrange(start as int, end as int));
    text.substring_char(start, end).to_owned()
}

/// A decimal digit.
pub open spec fn is_digit(c: char) -> bool {
    '0' <= c <= '9'
}

/// What a decimal digit counts for.
pub open spec fn digit_value(c: char) -> int {
    c as int - '0' as int
}

/// Every character is a decimal digit.
pub open spec fn all_digits(text: Seq<char>) -> bool {
    forall|i: int| 0 <= i < text.len() ==> is_digit(#[trigger] text[i])
}

/// The number that a run of decimal digits denotes.
pub open spec fn decimal(digits: Seq<char>) -> int
    decreases digits.len(),
{
    if digits.len() == 0 {
        0
    } else {
        decimal(digits.drop_last()) * 10 + digit_value(digits.last())
    }
}

/// The integer that a text denotes: an optional `+` or `-`, then one or more
/// decimal digits and nothing else. Any other text denotes none.
pub open spec fn integer_of(text: Seq<char>) -> Option<int> {
    if text.len() > 0 && (text.first() == '+' || text.first() == '-') {
        let digits = text.drop_first();
        if digits.len() > 0 && all_digits(digits) {
            if text.first() == '-' {
                Some(-decimal(digits))
            } else {
                Some(decimal(digits))
            }
        } else {
            None
        }
    } else if text.len() > 0 && all_digits(text) {
        Some(decimal(text))
    } else {
        None
    }
}

/// The 64-bit integer that a text denotes, if it denotes an integer and that
/// integer fits.
pub open spec fn i64_of(text: Seq<char>) -> Option<i64> {
    match integer_of(text) {
        Some(value) => if i64::MIN <= value <= i64::MAX {
            Some(value as i64)
        } else {
            None
        },
        None => None,
    }
}

/// Reads a decimal integer that fits in 64 bits.
pub fn parse_i64(text: &str) -> (value: Option<i64>)
    ensures
        value == i64_of(text@),
{
    let chars = characters(text);
    let n = chars.len();
    if n == 0 {
        return None;
    }
    let negative = chars[0] == '-';
    let first: usize = if chars[0] == '+' || chars[0] == '-' {
        1
    } else {
        0
    };
    if first == n {
        return None;
    }
    let ghost digits = text@.subrange(first as int, n as int);
    assert(first == 1 ==> digits =~= text@.drop_first());
    assert(first == 0 ==> digits =~= text@);
    let limit: u64 = if negative {
        0x8000_0000_0000_0000
    } else {
        0x7fff_ffff_ffff_ffff
    };
    let mut magnitude: u64 = 0;
    let mut overflow = false;
    let mut i: usize = first;
    while i < n
        invariant
            first <= i <= n,
            n == text@.len(),
            chars@ == text@,
            digits == text@.subrange(first as int, n as int),
            first == 1 ==> digits == text@.drop_first(),
            first == 0 ==> digits == text@,
            first == 1 <==> text@.first() == '+' || text@.first() == '-',
            all_digits(digits.take(i - first)),
            0x7fff_ffff_ffff_ffff <= limit <= 0x8000_0000_0000_0000,
            !overflow ==> magnitude == decimal(digits.take(i - first)) && magnitude <= limit,
            overflow ==> decimal(digits.take(i - first)) > limit,
        decreases n - i,
    {
        let c = chars[i];
        if !('0' <= c && c <= '9') {
            assert(!is_digit(digits[i - first]));
            return None;
        }
        let d: u64 = (c as u32 - '0' as u32) as u64;
        proof {
            let seen = digits.take(i - first + 1);
            assert(seen.drop_last() =~= digits.take(i - first));
            assert(seen.last() == c);
            assert(decimal(seen) == decimal(digits.take(i - first)) * 10 + d);
        }
        if !overflow {
            if magnitude > (limit - d) / 10 {
                overflow = true;
            } else {
                magnitude = magnitude * 10 + d;
            }
        }
        i += 1;
    }
    assert(digits.take(n - first) =~= digits);
    if overflow {
        return None;
    }
    if negative {
        if magnitude == 0x8000_0000_0000_0000 {
            Some(i64::MIN)
        } else {
            Some(-(magnitude as i64))
        }
    } else {
        Some(magnitude as i64)
    }
}

} // verus!
