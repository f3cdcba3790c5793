//! Text handling for process output: whitespace trimming and decimal parsing.

use std::string::FromUtf8Error;
use vstd::prelude::*;
use vstd::utf8::{decode_utf8, valid_utf8};

verus! {

/// Makes `std::string::FromUtf8Error` known to the verifier, as an opaque type.
#[verifier::external_type_specification]
#[verifier::external_body]
pub struct ExFromUtf8Error(FromUtf8Error);

/// The text that `String::from_utf8_lossy` makes of bytes that are not valid
/// UTF-8: each invalid sequence gives way to U+FFFD.
pub uninterp spec fn utf8_lossy(bytes: Seq<u8>) -> Seq<char>;

/// The text that `bytes` are read as when nothing may be rejected: what they
/// encode if they are valid UTF-8, and the lossy reading of them if not.
pub open spec fn lossy_text(bytes: Seq<u8>) -> Seq<char> {
    if valid_utf8(bytes) {
        decode_utf8(bytes)
    } else {
        utf8_lossy(bytes)
    }
}

/// Calls `String::from_utf8`. Trusted: the call succeeds exactly on valid
/// UTF-8, and the string then holds the characters that the bytes encode.
#[verifier::external_body]
pub(crate) fn string_from_utf8(bytes: Vec<u8>) -> (r: Result<String, FromUtf8Error>)
    ensures
        r is Ok <==> valid_utf8(bytes@),
        r matches Ok(s) ==> s@ == decode_utf8(bytes@),
{
    String::from_utf8(bytes)
}

/// Calls `String::from_utf8_lossy`. Trusted: valid UTF-8 is decoded as it
/// stands; of other bytes the result is only named, by `utf8_lossy`.
#[verifier::external_body]
pub(crate) fn string_from_utf8_lossy(bytes: &[u8]) -> (r: String)
    ensures
        valid_utf8(bytes@) ==> r@ == decode_utf8(bytes@),
        !valid_utf8(bytes@) ==> r@ == utf8_lossy(bytes@),
{
    String::from_utf8_lossy(bytes).into_owned()
}

/// The characters with the Unicode `White_Space` property.
pub open spec fn is_whitespace(c: char) -> bool {
    ||| c == ' '
    ||| '\u{9}' <= c <= '\u{d}'
    ||| c == '\u{85}'
    ||| c == '\u{a0}'
    ||| c == '\u{1680}'
    ||| '\u{2000}' <= c <= '\u{200a}'
    ||| c == '\u{2028}'
    ||| c == '\u{2029}'
    ||| c == '\u{202f}'
    ||| c == '\u{205f}'
    ||| c == '\u{3000}'
}

/// `s` without its leading whitespace.
pub open spec fn trim_start(s: Seq<char>) -> Seq<char>
    decreases s.len(),
{
    if s.len() > 0 && is_whitespace(s[0]) {
        trim_start(s.drop_first())
    } else {
        s
    }
}

/// `s` without its trailing whitespace.
pub open spec fn trim_end(s: Seq<char>) -> Seq<char>
    decreases s.len(),
{
    if s.len() > 0 && is_whitespace(s.last()) {
        trim_end(s.drop_last())
    } else {
        s
    }
}

/// `s` without its leading and trailing whitespace.
pub open spec fn trimmed(s: Seq<char>) -> Seq<char> {
    trim_end(trim_start(s))
}

/// If the first `k` characters of `s` are whitespace and the next one is not,
/// trimming the start removes exactly those `k`.
pub proof fn lemma_trim_start_at(s: Seq<char>, k: int)
    requires
        0 <= k <= s.len(),
        forall|j: int| 0 <= j < k ==> is_whitespace(#[trigger] s[j]),
        k < s.len() ==> !is_whitespace(s[k]),
    ensures
        trim_start(s) == s.subrange(k, s.len() as int),
    decreases k,
{
    if k == 0 {
        assert(s.subrange(0, s.len() as int) =~= s);
    } else {
        let rest = s.drop_first();
        assert forall|j: int| 0 <= j < k - 1 implies is_whitespace(#[trigger] rest[j]) by {
            assert(rest[j] == s[j + 1]);
        }
        lemma_trim_start_at(rest, k - 1);
        assert(rest.subrange(k - 1, rest.len() as int) =~= s.subrange(k, s.len() as int));
    }
}

/// If everything in `s` from position `k` on is whitespace and the character
/// before `k` is not, trimming the end keeps exactly the first `k`.
pub proof fn lemma_trim_end_at(s: Seq<char>, k: int)
    requires
        0 <= k <= s.len(),
        forall|j: int| k <= j < s.len() ==> is_whitespace(#[trigger] s[j]),
        0 < k ==> !is_whitespace(s[k - 1]),
    ensures
        trim_end(s) == s.subrange(0, k),
    decreases s.len() - k,
{
    if k == s.len() {
        assert(s.subrange(0, k) =~= s);
    } else {
        let rest = s.drop_last();
        assert forall|j: int| k <= j < rest.len() implies is_whitespace(#[trigger] rest[j]) by {
            assert(rest[j] == s[j]);
        }
        lemma_trim_end_at(rest, k);
        assert(rest.subrange(0, k) =~= s.subrange(0, k));
    }
}

pub fn char_is_whitespace(c: char) -> (b: bool)
    ensures
        b == is_whitespace(c),
{
    c == ' ' || (c >= '\u{9}' && c <= '\u{d}') || c == '\u{85}' || c == '\u{a0}' || c == '\u{1680}'
        || (c >= '\u{2000}' && c <= '\u{200a}') || c == '\u{2028}' || c == '\u{2029}' || c
        == '\u{202f}' || c == '\u{205f}' || c == '\u{3000}'
}

/// The part of `s` between its leading and its trailing whitespace.
pub fn trim(s: &str) -> (r: &str)
    ensures
        r@ == trimmed(s@),
{
    let n: usize = s.unicode_len();
    let mut first: usize = 0;
    let mut end: usize = 0;
    let mut i: usize = 0;
    for c in it: s.chars()
        invariant
            it.seq() == s@,
            n == s@.len(),
            i == it.index(),
            first <= i,
            forall|j: int| 0 <= j < first ==> is_whitespace(#[trigger] s@[j]),
            first < i ==> !is_whitespace(s@[first as int]),
            first < i ==> first < end <= i && !is_whitespace(s@[end - 1]),
            first == i ==> end == 0,
            forall|j: int| first <= j && end <= j < i ==> is_whitespace(#[trigger] s@[j]),
    {
        if char_is_whitespace(c) {
            if first == i {
                first = i + 1;
            }
        } else {
            end = i + 1;
        }
        i = i + 1;
    }
    if first == n {
        proof {
            lemma_trim_start_at(s@, n as int);
            assert(s@.subrange(n as int, n as int) =~= Seq::<char>::empty());
        }
        s.substring_char(n, n)
    } else {
        proof {
            lemma_trim_start_at(s@, first as int);
            let t = s@.subrange(first as int, n as int);
            lemma_trim_end_at(t, end - first);
            assert(t.subrange(0, end - first) =~= s@.subrange(first as int, end as int));
        }
        s.substring_char(first, end)
    }
}

/// Whether `c` is one of the ASCII digits `0` to `9`.
pub open spec fn is_digit(c: char) -> bool {
    '0' <= c <= '9'
}

/// Whether `s` holds ASCII digits only.
pub open spec fn all_digits(s: Seq<char>) -> bool {
    forall|i: int| 0 <= i < s.len() ==> is_digit(#[trigger] s[i])
}

/// The number that the digits of `s` write in base ten.
pub open spec fn decimal_value(s: Seq<char>) -> nat
    decreases s.len(),
{
    if s.len() == 0 {
        0
    } else {
        decimal_value(s.drop_last()) * 10 + (s.last() as nat - '0' as nat) as nat
    }
}

/// `s` without the one `+` that may lead a number.
pub open spec fn without_plus(s: Seq<char>) -> Seq<char> {
    if s.len() > 0 && s[0] == '+' {
        s.drop_first()
    } else {
        s
    }
}

/// The `u32` that `s` writes: an optional `+`, then one or more ASCII digits
/// and nothing else, with a value that fits. `None` for every other text.
pub open spec fn parsed_u32(s: Seq<char>) -> Option<u32> {
    let digits = without_plus(s);
    if digits.len() > 0 && all_digits(digits) && decimal_value(digits) <= u32::MAX {
        Some(decimal_value(digits) as u32)
    } else {
        None
    }
}

/// A number is no smaller than what any prefix of its digits writes.
pub proof fn lemma_decimal_value_prefix(s: Seq<char>, k: int)
    requires
        0 <= k <= s.len(),
        all_digits(s),
    ensures
        decimal_value(s.take(k)) <= decimal_value(s),
    decreases s.len() - k,
{
    if k == s.len() {
        assert(s.take(k) =~= s);
    } else {
        let rest = s.drop_last();
        assert(all_digits(rest)) by {
            assert forall|i: int| 0 <= i < rest.len() implies is_digit(#[trigger] rest[i]) by {
                assert(rest[i] == s[i]);
            }
        }
        lemma_decimal_value_prefix(rest, k);
        assert(rest.take(k) =~= s.take(k));
        assert(is_digit(s.last()));
    }
}

/// Reads `s` as a `u32` written in base ten.
pub fn parse_u32(s: &str) -> (r: Option<u32>)
    ensures
        r == parsed_u32(s@),
{
    let n: usize = s.unicode_len();
    let ghost digits = without_plus(s@);
    let mut value: u32 = 0;
    let mut signed: bool = false;
    let mut i: usize = 0;
    for c in it: s.chars()
        invariant
            it.seq() == s@,
            n == s@.len(),
            digits == without_plus(s@),
            i == it.index(),
            signed <==> i > 0 && s@[0] == '+',
            i == 0 ==> value == 0,
            i > 0 ==> digits.len() == n - if signed { 1int } else { 0int },
            i > 0 ==> all_digits(digits.take(i - if signed { 1int } else { 0int })),
            i > 0 ==> value == decimal_value(digits.take(i - if signed { 1int } else { 0int })),
    {
        // The number of digits read so far: `c` is `digits[seen]`, unless it is the sign.
        let ghost seen = if i == 0 || !signed { i as int } else { i - 1 };
        if i == 0 && c == '+' {
            signed = true;
            assert(digits.take(0) =~= Seq::<char>::empty());
        } else if c >= '0' && c <= '9' {
            let digit: u32 = c as u32 - '0' as u32;
            proof {
                let read = digits.take(seen + 1);
                assert(read.drop_last() =~= digits.take(seen));
                assert(read.last() == c);
                assert(digits.take(0) =~= Seq::<char>::empty());
                assert(decimal_value(read) == decimal_value(digits.take(seen)) * 10 + digit);
                assert forall|j: int| 0 <= j < seen + 1 implies is_digit(#[trigger] read[j]) by {
                    if j < seen {
                        assert(read[j] == digits.take(seen)[j]);
                    }
                }
            }
            if value > (u32::MAX - digit) / 10 {
                proof {
                    if all_digits(digits) {
                        lemma_decimal_value_prefix(digits, seen + 1);
                    }
                }
                return None;
            }
            value = value * 10 + digit;
        } else {
            assert(digits[seen] == c);
            return None;
        }
        i = i + 1;
    }
    if n == 0 || (signed && n == 1) {
        return None;
    }
    assert(digits.take(digits.len() as int) =~= digits);
    Some(value)
}

} // verus!
