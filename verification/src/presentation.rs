//! OpenID4VP presentation transactions: the idempotent create request,
//! the stored vocabularies, the associated data of protected payloads, and
//! the consistency of a completed result with its row.

use vstd::prelude::*;
use vstd::string::StringSliceAdditionalSpecFns;

use crate::encoding::{be_bytes_u128, be_bytes_u64, push_be_u128, push_be_u64};
use crate::text::{is_lower_sha256_hex, is_lower_sha256_hex_bytes, text_equals};

verus! {

/// Failures of the presentation store.
#[derive(Clone, Copy, Debug, PartialEq, Eq, Structural)]
pub enum PresentationStoreError {
    Unavailable,
    InvalidTransition,
    IdempotencyConflict,
}

/// The shape a create request's idempotency evidence must have: a valid
/// request id (`jti_valid`), a lowercase-hex SHA-256 digest, and a
/// non-empty canonical request of at most `max_canonical_bytes` bytes.
pub open spec fn create_request_well_formed(
    jti_valid: bool,
    request_sha256: Seq<char>,
    canonical_request: Seq<char>,
    max_canonical_bytes: usize,
    canonical_bytes: nat,
) -> bool {
    &&& jti_valid
    &&& is_lower_sha256_hex_bytes(vstd::utf8::encode_utf8(request_sha256))
    &&& canonical_request.len() > 0
    &&& canonical_bytes <= max_canonical_bytes
}

/// Check the evidence of an idempotent create request before anything is
/// stored.
pub fn check_create_request_shape(
    jti_valid: bool,
    request_sha256: &str,
    canonical_request: &str,
    max_canonical_bytes: usize,
) -> (result: Result<(), PresentationStoreError>)
    ensures
        result is Ok <==> create_request_well_formed(
            jti_valid,
            request_sha256@,
            canonical_request@,
            max_canonical_bytes,
            canonical_request.spec_bytes().len(),
        ),
        result is Err ==> result == Err::<(), PresentationStoreError>(PresentationStoreError::InvalidTransition),
{
    if !jti_valid {
        return Err(PresentationStoreError::InvalidTransition);
    }
    if !is_lower_sha256_hex(request_sha256) || canonical_request.is_empty()
        || canonical_request.as_bytes().len() > max_canonical_bytes {
        return Err(PresentationStoreError::InvalidTransition);
    }
    Ok(())
}

/// The canonical re-encoding of the request (`None` when it could not be
/// decoded or re-encoded) must reproduce the presented canonical text and
/// digest exactly.
pub fn check_canonical_form(
    canonical: Option<(&str, &str)>,
    request_sha256: &str,
    canonical_request: &str,
) -> (result: Result<(), PresentationStoreError>)
    ensures
        result is Ok <==> (canonical matches Some((text, digest)) && text@ == canonical_request@ && digest@
            == request_sha256@),
        result is Err ==> result == Err::<(), PresentationStoreError>(PresentationStoreError::InvalidTransition),
{
    let Some((text, digest)) = canonical else {
        return Err(PresentationStoreError::InvalidTransition);
    };
    if !text_equals(text, canonical_request) || !text_equals(digest, request_sha256) {
        return Err(PresentationStoreError::InvalidTransition);
    }
    Ok(())
}

/// What an idempotent insert of a transaction did.
#[derive(Clone, Copy, Debug, PartialEq, Eq, Structural)]
pub enum CreateStep {
    /// The transaction was stored.
    Created,
    /// The request id was already used: load the earlier transaction.
    LoadExisting,
}

pub fn create_step(inserted: usize) -> (result: Result<CreateStep, PresentationStoreError>)
    ensures
        inserted == 1 ==> result == Ok::<CreateStep, PresentationStoreError>(CreateStep::Created),
        inserted == 0 ==> result == Ok::<CreateStep, PresentationStoreError>(CreateStep::LoadExisting),
        inserted > 1 ==> result == Err::<CreateStep, PresentationStoreError>(
            PresentationStoreError::InvalidTransition,
        ),
{
    if inserted == 1 {
        Ok(CreateStep::Created)
    } else if inserted == 0 {
        Ok(CreateStep::LoadExisting)
    } else {
        Err(PresentationStoreError::InvalidTransition)
    }
}

/// A repeated create request must carry the same digest and canonical text
/// as the one that created the transaction.
pub fn check_idempotent_replay(
    stored_sha256: &str,
    stored_canonical: &str,
    request_sha256: &str,
    canonical_request: &str,
) -> (result: Result<(), PresentationStoreError>)
    ensures
        result is Ok <==> (stored_sha256@ == request_sha256@ && stored_canonical@ == canonical_request@),
        result is Err ==> result == Err::<(), PresentationStoreError>(PresentationStoreError::IdempotencyConflict),
{
    if !text_equals(stored_sha256, request_sha256) || !text_equals(stored_canonical, canonical_request) {
        return Err(PresentationStoreError::IdempotencyConflict);
    }
    Ok(())
}

/// How the verifier is identified to the wallet.
#[derive(Clone, Copy, Debug, PartialEq, Eq, Structural)]
pub enum ClientIdPrefix {
    RedirectUri,
    X509SanDns,
    X509Hash,
}

pub open spec fn client_id_prefix_from_text(text: Seq<char>) -> Option<ClientIdPrefix> {
    if text == "redirect_uri"@ {
        Some(ClientIdPrefix::RedirectUri)
    } else if text == "x509_san_dns"@ {
        Some(ClientIdPrefix::X509SanDns)
    } else if text == "x509_hash"@ {
        Some(ClientIdPrefix::X509Hash)
    } else {
        None
    }
}

pub fn parse_client_id_prefix(value: &str) -> (result: Result<ClientIdPrefix, PresentationStoreError>)
    ensures
        match client_id_prefix_from_text(value@) {
            Some(prefix) => result == Ok::<ClientIdPrefix, PresentationStoreError>(prefix),
            None => result == Err::<ClientIdPrefix, PresentationStoreError>(
                PresentationStoreError::InvalidTransition,
            ),
        },
{
    if text_equals(value, "redirect_uri") {
        Ok(ClientIdPrefix::RedirectUri)
    } else if text_equals(value, "x509_san_dns") {
        Ok(ClientIdPrefix::X509SanDns)
    } else if text_equals(value, "x509_hash") {
        Ok(ClientIdPrefix::X509Hash)
    } else {
        Err(PresentationStoreError::InvalidTransition)
    }
}

/// How the wallet returns its response.
#[derive(Clone, Copy, Debug, PartialEq, Eq, Structural)]
pub enum ResponseMode {
    DirectPost,
    DirectPostJwt,
}

pub open spec fn response_mode_from_text(text: Seq<char>) -> Option<ResponseMode> {
    if text == "direct_post"@ {
        Some(ResponseMode::DirectPost)
    } else if text == "direct_post.jwt"@ {
        Some(ResponseMode::DirectPostJwt)
    } else {
        None
    }
}

pub fn parse_response_mode(value: &str) -> (result: Result<ResponseMode, PresentationStoreError>)
    ensures
        match response_mode_from_text(value@) {
            Some(mode) => result == Ok::<ResponseMode, PresentationStoreError>(mode),
            None => result == Err::<ResponseMode, PresentationStoreError>(PresentationStoreError::InvalidTransition),
        },
{
    if text_equals(value, "direct_post") {
        Ok(ResponseMode::DirectPost)
    } else if text_equals(value, "direct_post.jwt") {
        Ok(ResponseMode::DirectPostJwt)
    } else {
        Err(PresentationStoreError::InvalidTransition)
    }
}

/// The stored name of a response mode.
pub open spec fn response_mode_text(mode: ResponseMode) -> Seq<char> {
    match mode {
        ResponseMode::DirectPost => "direct_post"@,
        ResponseMode::DirectPostJwt => "direct_post.jwt"@,
    }
}

impl ResponseMode {
    /// The name a transaction stores for its response mode.
    pub fn as_str(self) -> (text: &'static str)
        ensures
            text@ == response_mode_text(self),
    {
        match self {
            ResponseMode::DirectPost => "direct_post",
            ResponseMode::DirectPostJwt => "direct_post.jwt",
        }
    }
}

/// The stored name of a client id prefix.
pub open spec fn client_id_prefix_text(prefix: ClientIdPrefix) -> Seq<char> {
    match prefix {
        ClientIdPrefix::RedirectUri => "redirect_uri"@,
        ClientIdPrefix::X509SanDns => "x509_san_dns"@,
        ClientIdPrefix::X509Hash => "x509_hash"@,
    }
}

impl ClientIdPrefix {
    /// The name a transaction stores for its client id prefix.
    pub fn as_str(self) -> (text: &'static str)
        ensures
            text@ == client_id_prefix_text(self),
    {
        match self {
            ClientIdPrefix::RedirectUri => "redirect_uri",
            ClientIdPrefix::X509SanDns => "x509_san_dns",
            ClientIdPrefix::X509Hash => "x509_hash",
        }
    }
}

/// Reading a stored response mode inverts storing it: every mode's name
/// reads back as that mode and only a mode's name reads as it, so the two
/// modes never read as each other; the JWT mode's name is the plain
/// mode's name with `.jwt` appended.
pub proof fn lemma_response_mode_names_round_trip(mode: ResponseMode, text: Seq<char>)
    ensures
        response_mode_from_text(response_mode_text(mode)) == Some(mode),
        response_mode_from_text(text) == Some(mode) ==> text == response_mode_text(mode),
        response_mode_text(ResponseMode::DirectPostJwt) == response_mode_text(ResponseMode::DirectPost) + ".jwt"@,
{
    reveal_strlit("direct_post");
    reveal_strlit("direct_post.jwt");
    reveal_strlit(".jwt");
    assert("direct_post.jwt"@ =~= "direct_post"@ + ".jwt"@);
    assert("direct_post"@ != "direct_post.jwt"@) by {
        assert("direct_post"@.len() != "direct_post.jwt"@.len());
    }
}

/// Reading a stored client id prefix inverts storing it: every prefix's
/// name reads back as that prefix and only a prefix's name reads as it.
pub proof fn lemma_client_id_prefix_names_round_trip(prefix: ClientIdPrefix, text: Seq<char>)
    ensures
        client_id_prefix_from_text(client_id_prefix_text(prefix)) == Some(prefix),
        client_id_prefix_from_text(text) == Some(prefix) ==> text == client_id_prefix_text(prefix),
{
    reveal_strlit("redirect_uri");
    reveal_strlit("x509_san_dns");
    reveal_strlit("x509_hash");
    assert("redirect_uri"@ != "x509_san_dns"@) by {
        assert("redirect_uri"@[0] != "x509_san_dns"@[0]);
    }
    assert("redirect_uri"@ != "x509_hash"@) by {
        assert("redirect_uri"@.len() != "x509_hash"@.len());
    }
    assert("x509_san_dns"@ != "x509_hash"@) by {
        assert("x509_san_dns"@.len() != "x509_hash"@.len());
    }
}

/// The associated data of a protected presentation payload: the domain
/// tag, the tenant id and the transaction id, each preceded by its length
/// as a big-endian `u64`.
pub open spec fn payload_aad_bytes(domain: Seq<u8>, tenant_id: u128, transaction_id: u128) -> Seq<u8> {
    be_bytes_u64(domain.len() as u64) + domain + be_bytes_u64(16) + be_bytes_u128(tenant_id) + be_bytes_u64(16)
        + be_bytes_u128(transaction_id)
}

pub fn payload_aad(domain: &[u8], tenant_id: u128, transaction_id: u128) -> (aad: Vec<u8>)
    ensures
        aad@ == payload_aad_bytes(domain@, tenant_id, transaction_id),
{
    let mut aad: Vec<u8> = Vec::new();
    push_be_u64(&mut aad, domain.len() as u64);
    aad.extend_from_slice(domain);
    push_be_u64(&mut aad, 16);
    push_be_u128(&mut aad, tenant_id);
    push_be_u64(&mut aad, 16);
    push_be_u128(&mut aad, transaction_id);
    assert(aad@ =~= payload_aad_bytes(domain@, tenant_id, transaction_id));
    aad
}

/// A stored result and its row agree on when the transaction completed:
/// both absent, or both present at the same microsecond.
pub fn check_completion_consistency(result_completed_at: Option<i64>, row_completed_at: Option<i64>) -> (result: Result<
    (),
    PresentationStoreError,
>)
    ensures
        result is Ok <==> result_completed_at == row_completed_at,
        result is Err ==> result == Err::<(), PresentationStoreError>(PresentationStoreError::InvalidTransition),
{
    if result_completed_at != row_completed_at {
        Err(PresentationStoreError::InvalidTransition)
    } else {
        Ok(())
    }
}

/// Decryption failures of a protected payload: a bad key makes the store
/// unavailable; any other failure is an invalid transition.
pub fn payload_open_error(invalid_key: bool) -> (error: PresentationStoreError)
    ensures
        invalid_key ==> error == PresentationStoreError::Unavailable,
        !invalid_key ==> error == PresentationStoreError::InvalidTransition,
{
    if invalid_key {
        PresentationStoreError::Unavailable
    } else {
        PresentationStoreError::InvalidTransition
    }
}

} // verus!
