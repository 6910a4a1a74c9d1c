//! Client mTLS trust anchors: metadata validation of submitted anchors,
//! the outcomes of request, resolution and revocation statements, and the
//! per-tenant bundle of active anchors.

use vstd::prelude::*;
use vstd::string::StringSliceAdditionalSpecFns;

use crate::error::{consistency, RepositoryError};
use crate::text::{
    contains_control, is_control_char, is_lower_sha256_hex, is_lower_sha256_hex_bytes, string_from_chars, text_chars,
    trim_chars, trimmed_chars,
};

verus! {

pub const MAX_ACTIVE_TRUST_ANCHORS_PER_CLIENT: i64 = 8;
pub const MAX_ACTIVE_TRUST_ANCHORS_PER_TENANT: i64 = 128;
pub const MAX_PENDING_TRUST_REQUESTS_PER_CLIENT: i64 = 4;
pub const MAX_PENDING_TRUST_REQUESTS_PER_USER: i64 = 16;
/// Longest accepted certificate PEM, in bytes.
pub const MAX_CERTIFICATE_PEM_BYTES: usize = 16 * 1024;
/// Longest accepted subject distinguished name, in bytes.
pub const MAX_SUBJECT_DN_BYTES: usize = 2048;

pub open spec fn pem_begin() -> Seq<char> {
    "-----BEGIN CERTIFICATE-----"@
}

pub open spec fn pem_end() -> Seq<char> {
    "-----END CERTIFICATE-----"@
}

/// `text` starts with `prefix`.
pub open spec fn starts_with(text: Seq<char>, prefix: Seq<char>) -> bool {
    text.len() >= prefix.len() && text.subrange(0, prefix.len() as int) == prefix
}

/// `needle` occurs somewhere in `text`.
pub open spec fn contains_text(text: Seq<char>, needle: Seq<char>) -> bool {
    exists|i: int| 0 <= i && i + needle.len() <= text.len() && #[trigger] text.subrange(i, i + needle.len()) == needle
}

fn has_prefix(text: &Vec<char>, prefix: &Vec<char>) -> (result: bool)
    ensures
        result == starts_with(text@, prefix@),
{
    if text.len() < prefix.len() {
        return false;
    }
    let mut i: usize = 0;
    while i < prefix.len()
        invariant
            prefix@.len() <= text@.len(),
            i <= prefix@.len(),
            forall|j: int| 0 <= j < i ==> text@[j] == prefix@[j],
        decreases prefix@.len() - i,
    {
        if text[i] != prefix[i] {
            assert(text@.subrange(0, prefix@.len() as int)[i as int] != prefix@[i as int]);
            return false;
        }
        i = i + 1;
    }
    assert(text@.subrange(0, prefix@.len() as int) =~= prefix@);
    true
}

fn occurs_at(text: &Vec<char>, needle: &Vec<char>, at: usize) -> (result: bool)
    requires
        at + needle@.len() <= text@.len(),
    ensures
        result == (text@.subrange(at as int, at + needle@.len()) == needle@),
{
    let n = text.len();
    let mut i: usize = 0;
    while i < needle.len()
        invariant
            at + needle@.len() <= text@.len(),
            n == text@.len(),
            i <= needle@.len(),
            forall|j: int| 0 <= j < i ==> text@[at + j] == needle@[j],
        decreases needle@.len() - i,
    {
        if text[at + i] != needle[i] {
            assert(text@.subrange(at as int, at + needle@.len())[i as int] != needle@[i as int]);
            return false;
        }
        i = i + 1;
    }
    assert(text@.subrange(at as int, at + needle@.len()) =~= needle@);
    true
}

fn has_substring(text: &Vec<char>, needle: &Vec<char>) -> (result: bool)
    ensures
        result == contains_text(text@, needle@),
{
    if needle.len() > text.len() {
        return false;
    }
    if needle.len() == 0 {
        assert(text@.subrange(0, 0 + needle@.len() as int) =~= needle@);
        return true;
    }
    let total = text.len();
    let last = total - needle.len();
    let mut at: usize = 0;
    while at <= last
        invariant
            last + needle@.len() == text@.len(),
            last + needle@.len() == total,
            needle@.len() > 0,
            at <= last + 1,
            forall|i: int| 0 <= i < at ==> #[trigger] text@.subrange(i, i + needle@.len()) != needle@,
        decreases last + 1 - at,
    {
        if occurs_at(text, needle, at) {
            return true;
        }
        at = at + 1;
    }
    false
}

/// The shape checks on an operator-managed or requested trust anchor,
/// before its digest: a bounded PEM certificate, a non-blank bounded
/// subject name without control characters, and a validity window that
/// ends after it starts.
pub open spec fn anchor_metadata_valid(pem: Seq<char>, subject_dn: Seq<char>, not_before: i64, not_after: i64) -> bool {
    &&& vstd::utf8::encode_utf8(pem).len() <= MAX_CERTIFICATE_PEM_BYTES
    &&& starts_with(pem, pem_begin())
    &&& contains_text(pem, pem_end())
    &&& trim_chars(subject_dn).len() > 0
    &&& vstd::utf8::encode_utf8(subject_dn).len() <= MAX_SUBJECT_DN_BYTES
    &&& !(exists|i: int| 0 <= i < subject_dn.len() && is_control_char(#[trigger] subject_dn[i]))
    &&& not_before < not_after
}

/// Validate trust anchor metadata: first its shape, then its lowercase
/// SHA-256 digest.
pub fn validate_trust_anchor_metadata(
    certificate_pem: &str,
    certificate_sha256: &str,
    subject_dn: &str,
    not_before: i64,
    not_after: i64,
) -> (result: Result<(), RepositoryError>)
    ensures
        !anchor_metadata_valid(certificate_pem@, subject_dn@, not_before, not_after) ==> (result matches Err(
            RepositoryError::Consistency(text),
        ) && text@ == "operator-managed trust anchor metadata is invalid"@),
        anchor_metadata_valid(certificate_pem@, subject_dn@, not_before, not_after)
            && !is_lower_sha256_hex_bytes(certificate_sha256.spec_bytes()) ==> (result matches Err(
            RepositoryError::Consistency(text),
        ) && text@ == "operator-managed trust anchor digest is not a lowercase SHA-256 value"@),
        anchor_metadata_valid(certificate_pem@, subject_dn@, not_before, not_after) && is_lower_sha256_hex_bytes(
            certificate_sha256.spec_bytes(),
        ) ==> result is Ok,
{
    let pem = text_chars(certificate_pem);
    let begin = text_chars("-----BEGIN CERTIFICATE-----");
    let end = text_chars("-----END CERTIFICATE-----");
    let trimmed_dn = trimmed_chars(subject_dn);
    let valid_shape = certificate_pem.as_bytes().len() <= MAX_CERTIFICATE_PEM_BYTES && has_prefix(&pem, &begin)
        && has_substring(&pem, &end) && trimmed_dn.len() > 0 && subject_dn.as_bytes().len()
        <= MAX_SUBJECT_DN_BYTES && !contains_control(subject_dn) && not_before < not_after;
    if !valid_shape {
        return Err(consistency("operator-managed trust anchor metadata is invalid"));
    }
    if !is_lower_sha256_hex(certificate_sha256) {
        return Err(consistency("operator-managed trust anchor digest is not a lowercase SHA-256 value"));
    }
    Ok(())
}

/// A new trust request was stored (`created`), or not: refused by a
/// pending-request quota while the client is eligible (`Conflict`), or the
/// client is not eligible at all (`NotFound`).
pub fn trust_request_created(created: bool, eligible: bool) -> (result: Result<(), RepositoryError>)
    ensures
        created ==> result is Ok,
        !created && eligible ==> result == Err::<(), RepositoryError>(RepositoryError::Conflict),
        !created && !eligible ==> result == Err::<(), RepositoryError>(RepositoryError::NotFound),
{
    if !created && eligible {
        return Err(RepositoryError::Conflict);
    }
    if !created {
        return Err(RepositoryError::NotFound);
    }
    Ok(())
}

/// A resolution or revocation statement that changed no request lost to
/// a concurrent change or to its guards.
pub fn trust_request_transitioned(changed: bool) -> (result: Result<(), RepositoryError>)
    ensures
        changed ==> result is Ok,
        !changed ==> result == Err::<(), RepositoryError>(RepositoryError::Conflict),
{
    if changed {
        Ok(())
    } else {
        Err(RepositoryError::Conflict)
    }
}

/// Every certificate of a bundle, one after another.
pub open spec fn concat_all(pems: Seq<Seq<char>>) -> Seq<char>
    decreases pems.len(),
{
    if pems.len() == 0 {
        Seq::empty()
    } else {
        concat_all(pems.drop_last()) + pems.last()
    }
}

/// The active certificates of a tenant (read in PEM order, at most one past
/// the limit) as one bundle; more than the tenant limit is refused.
pub fn active_bundle(pems: &Vec<String>) -> (result: Result<String, RepositoryError>)
    ensures
        pems@.len() > MAX_ACTIVE_TRUST_ANCHORS_PER_TENANT ==> result == Err::<String, RepositoryError>(
            RepositoryError::Conflict,
        ),
        pems@.len() <= MAX_ACTIVE_TRUST_ANCHORS_PER_TENANT ==> (result matches Ok(bundle) && bundle@ == concat_all(
            pems@.map_values(|pem: String| pem@),
        )),
{
    if pems.len() > 128 {
        return Err(RepositoryError::Conflict);
    }
    let ghost views = pems@.map_values(|pem: String| pem@);
    let mut chars: Vec<char> = Vec::new();
    let mut i: usize = 0;
    while i < pems.len()
        invariant
            i <= pems@.len(),
            views == pems@.map_values(|pem: String| pem@),
            chars@ == concat_all(views.take(i as int)),
        decreases pems@.len() - i,
    {
        let pem = text_chars(pems[i].as_str());
        let mut k: usize = 0;
        let ghost start = chars@;
        while k < pem.len()
            invariant
                k <= pem@.len(),
                chars@ == start + pem@.take(k as int),
            decreases pem@.len() - k,
        {
            assert(pem@.take(k + 1) =~= pem@.take(k as int).push(pem@[k as int]));
            chars.push(pem[k]);
            k = k + 1;
        }
        assert(pem@.take(pem@.len() as int) =~= pem@);
        assert(views.take(i + 1).drop_last() =~= views.take(i as int));
        i = i + 1;
    }
    assert(views.take(pems@.len() as int) =~= views);
    Ok(string_from_chars(chars.as_slice()))
}

/// An admin projection of a trust request needs a requesting user:
/// operator-managed anchors have none.
pub fn require_request_user(user_id: Option<u128>) -> (result: Result<u128, RepositoryError>)
    ensures
        user_id matches Some(id) ==> result == Ok::<u128, RepositoryError>(id),
        user_id is None ==> (result matches Err(RepositoryError::Consistency(text)) && text@
            == "operator-managed trust anchor is not an admin user request"@),
{
    match user_id {
        Some(id) => Ok(id),
        None => Err(consistency("operator-managed trust anchor is not an admin user request")),
    }
}

} // verus!
