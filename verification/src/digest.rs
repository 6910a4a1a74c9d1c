//! Digests and encodings of byte strings: SHA-256, BLAKE3, unpadded
//! base64url and lowercase hexadecimal.

use vstd::prelude::*;
use vstd::string::StringSliceAdditionalSpecFns;

use crate::text::string_from_chars;
use base64::Engine as _;
use sha2::Digest as _;

verus! {

/// SHA-256 of a byte string (FIPS 180-4).
pub uninterp spec fn sha256_of(data: Seq<u8>) -> Seq<u8>;

/// BLAKE3 of a byte string, 32-byte output.
pub uninterp spec fn blake3_of(data: Seq<u8>) -> Seq<u8>;

/// Unpadded base64url encoding (RFC 4648 §5, no `=`) of a byte string.
pub uninterp spec fn base64url_nopad_of(data: Seq<u8>) -> Seq<char>;

/// Calls `sha2::Sha256::digest`.  Trusted: the digest is the function
/// `sha256_of` of the input bytes and is 32 bytes long, as the crate documents.
#[verifier::external_body]
fn sha256_bytes(data: &[u8]) -> (digest: Vec<u8>)
    ensures
        digest@ == sha256_of(data@),
        digest@.len() == 32,
{
    sha2::Sha256::digest(data).to_vec()
}

/// Calls `blake3::hash`.  Trusted: the digest is the function `blake3_of` of
/// the input bytes and is 32 bytes long (`blake3::OUT_LEN`).
#[verifier::external_body]
fn blake3_bytes(data: &[u8]) -> (digest: Vec<u8>)
    ensures
        digest@ == blake3_of(data@),
        digest@.len() == 32,
{
    blake3::hash(data).as_bytes().to_vec()
}

/// The characters of the URL-safe base64 alphabet: `A-Z a-z 0-9 - _`.
pub open spec fn is_base64url_char(c: char) -> bool {
    ('A' <= c && c <= 'Z') || ('a' <= c && c <= 'z') || ('0' <= c && c <= '9') || c == '-' || c == '_'
}

/// Calls `base64::engine::general_purpose::URL_SAFE_NO_PAD.encode`.  Trusted:
/// the text is `base64url_nopad_of` of the input, uses only the URL-safe
/// alphabet, and has the unpadded length `base64::encoded_len(n, false)`
/// computes: four characters per three bytes, two or three for a tail.
#[verifier::external_body]
fn base64url_nopad_text(data: &[u8]) -> (text: String)
    ensures
        text@ == base64url_nopad_of(data@),
        text@.len() == (4 * data@.len() + 2) / 3,
        forall|i: int| 0 <= i < text@.len() ==> is_base64url_char(#[trigger] text@[i]),
{
    base64::engine::general_purpose::URL_SAFE_NO_PAD.encode(data)
}

/// The lowercase hexadecimal digit for a nibble.
pub open spec fn hex_digit_of(nibble: int) -> char {
    if nibble < 10 {
        (48 + nibble) as char
    } else {
        (87 + nibble) as char
    }
}

/// Lowercase hexadecimal text of a byte string, high nibble first.
pub open spec fn lower_hex_of(bytes: Seq<u8>) -> Seq<char> {
    Seq::new(
        2 * bytes.len(),
        |i: int|
            if i % 2 == 0 {
                hex_digit_of((bytes[i / 2] / 16) as int)
            } else {
                hex_digit_of((bytes[i / 2] % 16) as int)
            },
    )
}

fn hex_digit(nibble: u8) -> (c: char)
    requires
        nibble < 16,
    ensures
        c == hex_digit_of(nibble as int),
{
    if nibble < 10 {
        (48u8 + nibble) as char
    } else {
        (87u8 + nibble) as char
    }
}

/// Lowercase hexadecimal encoding, as `blake3::Hash::to_hex` and the
/// `{:02x}` formatting loop produce it.
pub fn lower_hex(bytes: &[u8]) -> (text: String)
    requires
        2 * bytes@.len() <= usize::MAX,
    ensures
        text@ == lower_hex_of(bytes@),
{
    let mut chars: Vec<char> = Vec::new();
    let mut i: usize = 0;
    while i < bytes.len()
        invariant
            i <= bytes@.len(),
            chars@.len() == 2 * i,
            forall|j: int| 0 <= j < 2 * i ==> #[trigger] chars@[j] == lower_hex_of(bytes@)[j],
        decreases bytes@.len() - i,
    {
        let byte = bytes[i];
        chars.push(hex_digit(byte / 16));
        chars.push(hex_digit(byte % 16));
        assert forall|j: int| 0 <= j < 2 * (i + 1) implies #[trigger] chars@[j] == lower_hex_of(
            bytes@,
        )[j] by {
            if j >= 2 * i {
                assert(j / 2 == i);
            }
        }
        i = i + 1;
    }
    assert(chars@ =~= lower_hex_of(bytes@));
    string_from_chars(chars.as_slice())
}

/// Lowercase-hex BLAKE3 digest of a text's UTF-8 bytes: 64 characters.
pub fn blake3_hex(value: &str) -> (text: String)
    ensures
        text@ == lower_hex_of(blake3_of(value.spec_bytes())),
        text@.len() == 64,
{
    let digest = blake3_bytes(value.as_bytes());
    lower_hex(digest.as_slice())
}

/// Lowercase-hex SHA-256 digest of a text's UTF-8 bytes: 64 characters.
pub fn sha256_hex(value: &str) -> (text: String)
    ensures
        text@ == lower_hex_of(sha256_of(value.spec_bytes())),
        text@.len() == 64,
{
    let digest = sha256_bytes(value.as_bytes());
    lower_hex(digest.as_slice())
}

/// The controller key id of an Ed25519 public key: unpadded base64url of
/// its SHA-256 digest, 43 characters long.
pub fn key_id_for_public_key(public_key: &[u8]) -> (kid: String)
    ensures
        kid@ == base64url_nopad_of(sha256_of(public_key@)),
        kid@.len() == 43,
        forall|i: int| 0 <= i < kid@.len() ==> is_base64url_char(#[trigger] kid@[i]),
{
    let digest = sha256_bytes(public_key);
    base64url_nopad_text(digest.as_slice())
}

/// Unpadded base64url text of a byte string.
pub fn base64url_nopad(data: &[u8]) -> (text: String)
    ensures
        text@ == base64url_nopad_of(data@),
        text@.len() == (4 * data@.len() + 2) / 3,
        forall|i: int| 0 <= i < text@.len() ==> is_base64url_char(#[trigger] text@[i]),
{
    base64url_nopad_text(data)
}

} // verus!
