//! Fixed-width big-endian integer encodings.

use vstd::prelude::*;

use crate::digest::{lower_hex, lower_hex_of};
use crate::text::{string_from_chars, text_chars};

verus! {

/// Big-endian bytes of a 128-bit value (the byte order of a UUID).
pub open spec fn be_bytes_u128(x: u128) -> Seq<u8> {
    Seq::new(16, |i: int| (x >> ((120 - 8 * i) as u32)) as u8)
}

/// Big-endian bytes of a 64-bit value.
pub open spec fn be_bytes_u64(x: u64) -> Seq<u8> {
    Seq::new(8, |i: int| (x >> ((56 - 8 * i) as u32)) as u8)
}

/// Append the big-endian bytes of `x`.
pub fn push_be_u128(out: &mut Vec<u8>, x: u128)
    ensures
        final(out)@ == old(out)@ + be_bytes_u128(x),
{
    let ghost start = out@;
    let mut i: u32 = 0;
    while i < 16
        invariant
            i <= 16,
            out@ == start + be_bytes_u128(x).take(i as int),
        decreases 16 - i,
    {
        let byte = (x >> (120 - 8 * i)) as u8;
        assert(be_bytes_u128(x).take(i + 1) =~= be_bytes_u128(x).take(i as int).push(byte));
        out.push(byte);
        i = i + 1;
    }
    assert(be_bytes_u128(x).take(16) =~= be_bytes_u128(x));
}

/// Append the big-endian bytes of `x`.
pub fn push_be_u64(out: &mut Vec<u8>, x: u64)
    ensures
        final(out)@ == old(out)@ + be_bytes_u64(x),
{
    let ghost start = out@;
    let mut i: u32 = 0;
    while i < 8
        invariant
            i <= 8,
            out@ == start + be_bytes_u64(x).take(i as int),
        decreases 8 - i,
    {
        let byte = (x >> (56 - 8 * i)) as u8;
        assert(be_bytes_u64(x).take(i + 1) =~= be_bytes_u64(x).take(i as int).push(byte));
        out.push(byte);
        i = i + 1;
    }
    assert(be_bytes_u64(x).take(8) =~= be_bytes_u64(x));
}

/// The 16 bytes of a UUID held as a `u128`.
pub fn uuid_bytes(id: u128) -> (bytes: Vec<u8>)
    ensures
        bytes@ == be_bytes_u128(id),
{
    let mut bytes: Vec<u8> = Vec::new();
    push_be_u128(&mut bytes, id);
    assert(bytes@ =~= be_bytes_u128(id));
    bytes
}

/// The hyphenated lowercase text of a UUID (8-4-4-4-12 hex digits), as
/// `uuid::Uuid` displays it.
pub open spec fn uuid_text_of(id: u128) -> Seq<char> {
    let h = lower_hex_of(be_bytes_u128(id));
    h.subrange(0, 8) + seq!['-'] + h.subrange(8, 12) + seq!['-'] + h.subrange(12, 16) + seq!['-']
        + h.subrange(16, 20) + seq!['-'] + h.subrange(20, 32)
}

pub fn uuid_text(id: u128) -> (text: String)
    ensures
        text@ == uuid_text_of(id),
        text@.len() == 36,
{
    let bytes = uuid_bytes(id);
    let hex = lower_hex(bytes.as_slice());
    let h = text_chars(hex.as_str());
    assert(h@.len() == 32);
    let mut chars: Vec<char> = Vec::new();
    let mut i: usize = 0;
    while i < 32
        invariant
            i <= 32,
            h@ == lower_hex_of(be_bytes_u128(id)),
            h@.len() == 32,
            chars@ == uuid_text_of(id).take(i + if i > 20 { 4int } else if i > 16 { 3int } else if i > 12 {
                2int
            } else if i > 8 { 1int } else { 0int }),
        decreases 32 - i,
    {
        if i == 8 || i == 12 || i == 16 || i == 20 {
            chars.push('-');
        }
        chars.push(h[i]);
        i = i + 1;
        assert(chars@ =~= uuid_text_of(id).take(i + if i > 20 { 4int } else if i > 16 { 3int } else if i > 12 {
            2int
        } else if i > 8 { 1int } else { 0int }));
    }
    assert(chars@ =~= uuid_text_of(id));
    string_from_chars(chars.as_slice())
}

/// The UUID `uuid::Uuid::parse_str` reads from a text, or `None` when it
/// rejects the text (it accepts the simple, hyphenated, braced and URN
/// forms).
pub uninterp spec fn uuid_parse_of(text: Seq<char>) -> Option<u128>;

/// The message `uuid::Error` displays for a text that
/// `uuid::Uuid::parse_str` rejects.
pub uninterp spec fn uuid_parse_error_of(text: Seq<char>) -> Seq<char>;

/// Calls `uuid::Uuid::parse_str`, and on failure renders the error with
/// `to_string`.  Trusted: the value is `uuid_parse_of` of the text and the
/// message `uuid_parse_error_of` of it; both depend on the text alone.
#[verifier::external_body]
pub(crate) fn parse_uuid_text(text: &str) -> (result: Result<u128, String>)
    ensures
        match result {
            Ok(value) => uuid_parse_of(text@) == Some(value),
            Err(message) => uuid_parse_of(text@) is None && message@ == uuid_parse_error_of(text@),
        },
{
    match uuid::Uuid::parse_str(text) {
        Ok(value) => Ok(value.as_u128()),
        Err(error) => Err(error.to_string()),
    }
}

} // verus!
