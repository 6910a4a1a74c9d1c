//! Text helpers: characters of a string, trimming, identifier and digest
//! shapes, equality and concatenation of texts.

use vstd::prelude::*;
use vstd::string::StringSliceAdditionalSpecFns;

verus! {

/// The characters of `value`, in order.
pub fn text_chars(value: &str) -> (chars: Vec<char>)
    ensures
        chars@ == value@,
{
    broadcast use vstd::string::axiom_spec_iter;
    let mut out: Vec<char> = Vec::new();
    for c in it: value.chars()
        invariant
            it.seq() == value@,
            out@ == it.seq().take(it.index()),
    {
        out.push(c);
    }
    out
}

/// A `String` holding exactly `chars`.
#[verifier::external_body]
pub(crate) fn string_from_chars(chars: &[char]) -> (text: String)
    ensures
        text@ == chars@,
{
    chars.iter().collect()
}

/// Unicode `White_Space`, the property `char::is_whitespace` tests.
pub open spec fn is_whitespace_char(c: char) -> bool {
    ||| c == ' '
    ||| ('\t' <= c && c <= '\r')
    ||| c == '\u{85}'
    ||| c == '\u{a0}'
    ||| c == '\u{1680}'
    ||| ('\u{2000}' <= c && c <= '\u{200a}')
    ||| c == '\u{2028}'
    ||| c == '\u{2029}'
    ||| c == '\u{202f}'
    ||| c == '\u{205f}'
    ||| c == '\u{3000}'
}

/// Unicode general category `Cc`, the property `char::is_control` tests.
pub open spec fn is_control_char(c: char) -> bool {
    c <= '\u{1f}' || ('\u{7f}' <= c && c <= '\u{9f}')
}

pub fn is_whitespace(c: char) -> (result: bool)
    ensures
        result == is_whitespace_char(c),
{
    c == ' ' || ('\t' <= c && c <= '\r') || c == '\u{85}' || c == '\u{a0}' || c == '\u{1680}'
        || ('\u{2000}' <= c && c <= '\u{200a}') || c == '\u{2028}' || c == '\u{2029}' || c
        == '\u{202f}' || c == '\u{205f}' || c == '\u{3000}'
}

pub fn is_control(c: char) -> (result: bool)
    ensures
        result == is_control_char(c),
{
    c <= '\u{1f}' || ('\u{7f}' <= c && c <= '\u{9f}')
}

/// `chars` with its leading whitespace removed.
pub open spec fn trim_start_chars(chars: Seq<char>) -> Seq<char>
    decreases chars.len(),
{
    if chars.len() > 0 && is_whitespace_char(chars[0]) {
        trim_start_chars(chars.drop_first())
    } else {
        chars
    }
}

/// `chars` with its trailing whitespace removed.
pub open spec fn trim_end_chars(chars: Seq<char>) -> Seq<char>
    decreases chars.len(),
{
    if chars.len() > 0 && is_whitespace_char(chars.last()) {
        trim_end_chars(chars.drop_last())
    } else {
        chars
    }
}

/// `chars` with leading and trailing whitespace removed, as `str::trim` does.
pub open spec fn trim_chars(chars: Seq<char>) -> Seq<char> {
    trim_end_chars(trim_start_chars(chars))
}

/// The characters of `value` with leading and trailing whitespace removed.
pub fn trimmed_chars(value: &str) -> (result: Vec<char>)
    ensures
        result@ == trim_chars(value@),
{
    let chars = text_chars(value);
    let n = chars.len();
    let mut lo: usize = 0;
    assert(value@.subrange(0, n as int) =~= value@);
    while lo < n && is_whitespace(chars[lo])
        invariant
            chars@ == value@,
            n == chars@.len(),
            lo <= n,
            trim_start_chars(value@) == trim_start_chars(value@.subrange(lo as int, n as int)),
        decreases n - lo,
    {
        assert(value@.subrange(lo as int, n as int).drop_first() =~= value@.subrange(
            lo + 1,
            n as int,
        ));
        lo = lo + 1;
    }
    assert(trim_start_chars(value@) == value@.subrange(lo as int, n as int));
    let mut hi: usize = n;
    while hi > lo && is_whitespace(chars[hi - 1])
        invariant
            chars@ == value@,
            n == chars@.len(),
            lo <= hi <= n,
            trim_start_chars(value@) == value@.subrange(lo as int, n as int),
            trim_chars(value@) == trim_end_chars(value@.subrange(lo as int, hi as int)),
        decreases hi - lo,
    {
        assert(value@.subrange(lo as int, hi as int).drop_last() =~= value@.subrange(
            lo as int,
            hi - 1,
        ));
        hi = hi - 1;
    }
    let mut result: Vec<char> = Vec::new();
    let mut i = lo;
    while i < hi
        invariant
            chars@ == value@,
            n == chars@.len(),
            lo <= i <= hi <= n,
            result@ == value@.subrange(lo as int, i as int),
        decreases hi - i,
    {
        result.push(chars[i]);
        assert(result@ =~= value@.subrange(lo as int, i + 1));
        i = i + 1;
    }
    assert(trim_end_chars(value@.subrange(lo as int, hi as int)) == value@.subrange(
        lo as int,
        hi as int,
    ));
    result
}

/// Whether a byte is an ASCII digit or a lowercase hexadecimal letter.
pub open spec fn is_lower_hex_byte(byte: u8) -> bool {
    (48 <= byte && byte <= 57) || (97 <= byte && byte <= 102)
}

/// A lowercase hexadecimal SHA-256 digest: exactly 64 bytes of `0-9a-f`.
pub open spec fn is_lower_sha256_hex_bytes(bytes: Seq<u8>) -> bool {
    bytes.len() == 64 && forall|i: int| 0 <= i < bytes.len() ==> is_lower_hex_byte(#[trigger] bytes[i])
}

pub fn is_lower_sha256_hex(value: &str) -> (result: bool)
    ensures
        result == is_lower_sha256_hex_bytes(value.spec_bytes()),
{
    let bytes = value.as_bytes();
    if bytes.len() != 64 {
        return false;
    }
    let mut i: usize = 0;
    while i < bytes.len()
        invariant
            bytes@ == value.spec_bytes(),
            i <= bytes@.len(),
            forall|j: int| 0 <= j < i ==> is_lower_hex_byte(#[trigger] bytes@[j]),
        decreases bytes@.len() - i,
    {
        let byte = bytes[i];
        if !((48 <= byte && byte <= 57) || (97 <= byte && byte <= 102)) {
            return false;
        }
        i = i + 1;
    }
    true
}

pub open spec fn is_ascii_lower_char(c: char) -> bool {
    'a' <= c && c <= 'z'
}

pub open spec fn is_ascii_digit_char(c: char) -> bool {
    '0' <= c && c <= '9'
}

/// A ledger identifier: a lowercase ASCII letter followed by lowercase letters,
/// digits or `_`, at most 64 bytes long.
pub open spec fn is_ledger_identifier(chars: Seq<char>) -> bool {
    &&& chars.len() > 0
    &&& is_ascii_lower_char(chars[0])
    &&& vstd::utf8::encode_utf8(chars).len() <= 64
    &&& forall|i: int|
        1 <= i < chars.len() ==> {
            let c = #[trigger] chars[i];
            is_ascii_lower_char(c) || is_ascii_digit_char(c) || c == '_'
        }
}

/// Whether `value` is a ledger identifier; event types and categories must be.
pub fn valid_identifier(value: &str) -> (result: bool)
    ensures
        result == is_ledger_identifier(value@),
{
    let chars = text_chars(value);
    if chars.len() == 0 {
        return false;
    }
    let first = chars[0];
    if !('a' <= first && first <= 'z') || value.as_bytes().len() > 64 {
        return false;
    }
    let mut i: usize = 1;
    while i < chars.len()
        invariant
            chars@ == value@,
            1 <= i <= chars@.len(),
            forall|j: int|
                1 <= j < i ==> {
                    let c = #[trigger] chars@[j];
                    is_ascii_lower_char(c) || is_ascii_digit_char(c) || c == '_'
                },
        decreases chars@.len() - i,
    {
        let c = chars[i];
        if !(('a' <= c && c <= 'z') || ('0' <= c && c <= '9') || c == '_') {
            return false;
        }
        i = i + 1;
    }
    true
}

} // verus!

verus! {

/// Character-wise equality of two texts.
pub fn text_equals(left: &str, right: &str) -> (result: bool)
    ensures
        result == (left@ == right@),
{
    let a = text_chars(left);
    let b = text_chars(right);
    if a.len() != b.len() {
        return false;
    }
    let mut i: usize = 0;
    while i < a.len()
        invariant
            a@ == left@,
            b@ == right@,
            a@.len() == b@.len(),
            i <= a@.len(),
            forall|j: int| 0 <= j < i ==> a@[j] == b@[j],
        decreases a@.len() - i,
    {
        if a[i] != b[i] {
            return false;
        }
        i = i + 1;
    }
    assert(a@ =~= b@);
    true
}

/// The text `head` followed by `tail`.
pub fn concat_text(head: &str, tail: &str) -> (text: String)
    ensures
        text@ == head@ + tail@,
{
    let mut chars = text_chars(head);
    let rest = text_chars(tail);
    let ghost start = chars@;
    let mut i: usize = 0;
    while i < rest.len()
        invariant
            i <= rest@.len(),
            start == head@,
            rest@ == tail@,
            chars@ == start + rest@.take(i as int),
        decreases rest@.len() - i,
    {
        assert(rest@.take(i + 1) =~= rest@.take(i as int).push(rest@[i as int]));
        chars.push(rest[i]);
        i = i + 1;
    }
    assert(rest@.take(rest@.len() as int) =~= rest@);
    string_from_chars(chars.as_slice())
}

/// Whether some character of `value` is a control character.
pub fn contains_control(value: &str) -> (result: bool)
    ensures
        result == exists|i: int| 0 <= i < value@.len() && is_control_char(#[trigger] value@[i]),
{
    let chars = text_chars(value);
    let mut i: usize = 0;
    while i < chars.len()
        invariant
            chars@ == value@,
            i <= chars@.len(),
            forall|j: int| 0 <= j < i ==> !is_control_char(#[trigger] chars@[j]),
        decreases chars@.len() - i,
    {
        if is_control(chars[i]) {
            return true;
        }
        i = i + 1;
    }
    false
}

} // verus!
