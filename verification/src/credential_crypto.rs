//! Sealing of issuer-managed credential datasets: AES-256-GCM under the
//! data key, bound to tenant, subject and credential configuration, with
//! the random nonce stored in front of the ciphertext.

use vstd::prelude::*;
use vstd::utf8::encode_utf8;

use crate::encoding::{be_bytes_u128, be_bytes_u64, push_be_u128, push_be_u64};
use crate::entropy::random_nonce;
use aes_gcm::aead::Aead as _;
use aes_gcm::KeyInit as _;

verus! {

pub const AEAD_NONCE_LEN: usize = 12;
pub const AEAD_TAG_LEN: usize = 16;
/// Longest plaintext, and longest associated data, AES-GCM accepts (2^36 bytes).
pub const AEAD_MAX_INPUT_BYTES: u64 = 68_719_476_736;

/// The AES-256-GCM ciphertext (with its 16-byte tag appended) of a
/// plaintext under a key, a 12-byte nonce and associated data.
pub uninterp spec fn aes256gcm_seal_of(key: Seq<u8>, nonce: Seq<u8>, aad: Seq<u8>, plaintext: Seq<u8>) -> Seq<u8>;

/// The plaintext AES-256-GCM recovers from a ciphertext with its tag, or
/// `None` when the tag does not authenticate it.
pub uninterp spec fn aes256gcm_open_of(key: Seq<u8>, nonce: Seq<u8>, aad: Seq<u8>, ciphertext: Seq<u8>) -> Option<Seq<u8>>;

/// Calls `aes_gcm::Aes256Gcm::encrypt` with a `Payload`.  Trusted: the
/// crate refuses (only) plaintexts or associated data longer than 2^36
/// bytes; otherwise the result is `aes256gcm_seal_of` of the inputs and is
/// the plaintext's length plus the 16-byte tag.
#[verifier::external_body]
fn aes256gcm_seal(key: &[u8; 32], nonce: &[u8; 12], aad: &[u8], plaintext: &[u8]) -> (sealed: Option<Vec<u8>>)
    ensures
        sealed is Some <==> (plaintext@.len() <= AEAD_MAX_INPUT_BYTES && aad@.len() <= AEAD_MAX_INPUT_BYTES),
        sealed matches Some(c) ==> c@ == aes256gcm_seal_of(key@, nonce@, aad@, plaintext@) && c@.len()
            == plaintext@.len() + AEAD_TAG_LEN,
{
    let cipher = aes_gcm::Aes256Gcm::new(key.into());
    cipher.encrypt(nonce.into(), aes_gcm::aead::Payload { msg: plaintext, aad }).ok()
}

/// `ciphertext` is what sealing `plaintext` (within the length limits)
/// under the key, nonce and associated data gives.
pub open spec fn seals_to(key: Seq<u8>, nonce: Seq<u8>, aad: Seq<u8>, plaintext: Seq<u8>, ciphertext: Seq<u8>) -> bool {
    &&& plaintext.len() <= AEAD_MAX_INPUT_BYTES
    &&& aad.len() <= AEAD_MAX_INPUT_BYTES
    &&& aes256gcm_seal_of(key, nonce, aad, plaintext) == ciphertext
}

/// `opened` holds exactly the bytes `expected` names, or nothing when it
/// names none.
pub open spec fn opened_as(opened: Option<Vec<u8>>, expected: Option<Seq<u8>>) -> bool {
    match (opened, expected) {
        (Some(bytes), Some(e)) => bytes@ == e,
        (None, None) => true,
        _ => false,
    }
}

/// Calls `aes_gcm::Aes256Gcm::decrypt` with a `Payload`.  Trusted: the
/// result is `aes256gcm_open_of` of the inputs; and decryption inverts
/// encryption: a ciphertext sealed from a plaintext under the same key,
/// nonce and associated data (within the length limits) opens to it.
#[verifier::external_body]
fn aes256gcm_open(key: &[u8; 32], nonce: &[u8; 12], aad: &[u8], ciphertext: &[u8]) -> (opened: Option<Vec<u8>>)
    ensures
        opened_as(opened, aes256gcm_open_of(key@, nonce@, aad@, ciphertext@)),
        forall|plaintext: Seq<u8>| #[trigger] seals_to(key@, nonce@, aad@, plaintext, ciphertext@) ==> opened_as(opened, Some(plaintext)),
{
    let cipher = aes_gcm::Aes256Gcm::new(key.into());
    cipher.decrypt(nonce.into(), aes_gcm::aead::Payload { msg: ciphertext, aad }).ok()
}

/// Whether a byte string is a JSON text `serde_json` parses as a value.
pub uninterp spec fn json_text_parses(text: Seq<u8>) -> bool;

/// Calls `serde_json::from_slice::<serde_json::Value>`.  Trusted: whether
/// it succeeds is a function of the bytes alone.
#[verifier::external_body]
fn json_parses(text: &[u8]) -> (parses: bool)
    ensures
        parses == json_text_parses(text@),
{
    serde_json::from_slice::<serde_json::Value>(text).is_ok()
}

/// Failures of the credential dataset store.
#[derive(Clone, Copy, Debug, PartialEq, Eq, Structural)]
pub enum CredentialStoreError {
    Unavailable,
    InvalidTransition,
}

/// The associated data that binds a sealed dataset to its tenant, subject
/// and credential configuration: the two UUIDs, then the configuration id's
/// byte length as a big-endian `u64`, then the configuration id.
pub open spec fn dataset_aad_bytes(tenant_id: u128, subject_id: u128, configuration: Seq<char>) -> Seq<u8> {
    be_bytes_u128(tenant_id) + be_bytes_u128(subject_id) + be_bytes_u64(encode_utf8(configuration).len() as u64)
        + encode_utf8(configuration)
}

pub fn dataset_aad(tenant_id: u128, subject_id: u128, credential_configuration_id: &str) -> (aad: Vec<u8>)
    ensures
        aad@ == dataset_aad_bytes(tenant_id, subject_id, credential_configuration_id@),
{
    let configuration = credential_configuration_id.as_bytes();
    let mut aad: Vec<u8> = Vec::new();
    push_be_u128(&mut aad, tenant_id);
    push_be_u128(&mut aad, subject_id);
    push_be_u64(&mut aad, configuration.len() as u64);
    aad.extend_from_slice(configuration);
    assert(aad@ =~= dataset_aad_bytes(tenant_id, subject_id, credential_configuration_id@));
    aad
}

/// Seal the serialized claims (`claims` is their JSON text) of a dataset
/// under a fresh random nonce: the stored form is the nonce followed by the
/// ciphertext.  Refused as unavailable only when AES-GCM refuses the input
/// lengths.
pub fn protect_dataset_claims(
    key: &[u8; 32],
    tenant_id: u128,
    subject_id: u128,
    credential_configuration_id: &str,
    claims: &[u8],
) -> (result: Result<Vec<u8>, CredentialStoreError>)
    ensures
        result is Ok <==> (claims@.len() <= AEAD_MAX_INPUT_BYTES && dataset_aad_bytes(
            tenant_id,
            subject_id,
            credential_configuration_id@,
        ).len() <= AEAD_MAX_INPUT_BYTES),
        result matches Err(error) ==> error == CredentialStoreError::Unavailable,
        result matches Ok(protected) ==> {
            &&& protected@.len() == AEAD_NONCE_LEN + claims@.len() + AEAD_TAG_LEN
            &&& protected@.subrange(AEAD_NONCE_LEN as int, protected@.len() as int) == aes256gcm_seal_of(
                key@,
                protected@.subrange(0, AEAD_NONCE_LEN as int),
                dataset_aad_bytes(tenant_id, subject_id, credential_configuration_id@),
                claims@,
            )
        },
{
    let aad = dataset_aad(tenant_id, subject_id, credential_configuration_id);
    let nonce = random_nonce();
    let Some(sealed) = aes256gcm_seal(key, &nonce, aad.as_slice(), claims) else {
        return Err(CredentialStoreError::Unavailable);
    };
    let mut protected: Vec<u8> = Vec::new();
    protected.extend_from_slice(&nonce);
    protected.extend_from_slice(sealed.as_slice());
    assert(protected@.subrange(0, 12) =~= nonce@);
    assert(protected@.subrange(12, protected@.len() as int) =~= sealed@);
    Ok(protected)
}

/// `protected` is the stored form of the JSON `claims` sealed for the
/// dataset binding: a nonce, then the claims sealed under it.
pub open spec fn dataset_sealed_as(
    key: Seq<u8>,
    tenant_id: u128,
    subject_id: u128,
    configuration: Seq<char>,
    claims: Seq<u8>,
    protected: Seq<u8>,
) -> bool {
    &&& json_text_parses(claims)
    &&& protected.len() >= AEAD_NONCE_LEN
    &&& seals_to(
        key,
        protected.subrange(0, AEAD_NONCE_LEN as int),
        dataset_aad_bytes(tenant_id, subject_id, configuration),
        claims,
        protected.subrange(AEAD_NONCE_LEN as int, protected.len() as int),
    )
}

/// Open a stored dataset: the first 12 bytes are the nonce, the rest the
/// ciphertext; the claims must authenticate under the dataset's binding
/// and be a JSON text.  Every failure is an invalid transition.  Opening
/// what [`protect_dataset_claims`] stored for the same key and binding
/// gives back the claims.
pub fn unprotect_dataset_claims(
    key: &[u8; 32],
    tenant_id: u128,
    subject_id: u128,
    credential_configuration_id: &str,
    protected: &[u8],
) -> (result: Result<Vec<u8>, CredentialStoreError>)
    ensures
        result matches Err(error) ==> error == CredentialStoreError::InvalidTransition,
        protected@.len() < AEAD_NONCE_LEN ==> result is Err,
        protected@.len() >= AEAD_NONCE_LEN ==> (result is Ok <==> (aes256gcm_open_of(
            key@,
            protected@.subrange(0, AEAD_NONCE_LEN as int),
            dataset_aad_bytes(tenant_id, subject_id, credential_configuration_id@),
            protected@.subrange(AEAD_NONCE_LEN as int, protected@.len() as int),
        ) matches Some(claims) && json_text_parses(claims))),
        result matches Ok(claims) ==> aes256gcm_open_of(
            key@,
            protected@.subrange(0, AEAD_NONCE_LEN as int),
            dataset_aad_bytes(tenant_id, subject_id, credential_configuration_id@),
            protected@.subrange(AEAD_NONCE_LEN as int, protected@.len() as int),
        ) == Some(claims@),
        forall|claims: Seq<u8>| #[trigger] dataset_sealed_as(key@, tenant_id, subject_id, credential_configuration_id@, claims, protected@) ==> (result matches Ok(opened) && opened@ == claims),
{
    if protected.len() < AEAD_NONCE_LEN {
        return Err(CredentialStoreError::InvalidTransition);
    }
    let nonce: [u8; 12] = [
        protected[0],
        protected[1],
        protected[2],
        protected[3],
        protected[4],
        protected[5],
        protected[6],
        protected[7],
        protected[8],
        protected[9],
        protected[10],
        protected[11],
    ];
    assert(nonce@ =~= protected@.subrange(0, 12));
    let ciphertext = vstd::slice::slice_subrange(protected, AEAD_NONCE_LEN, protected.len());
    let aad = dataset_aad(tenant_id, subject_id, credential_configuration_id);
    let Some(claims) = aes256gcm_open(key, &nonce, aad.as_slice(), ciphertext) else {
        return Err(CredentialStoreError::InvalidTransition);
    };
    if !json_parses(claims.as_slice()) {
        return Err(CredentialStoreError::InvalidTransition);
    }
    Ok(claims)
}

/// What [`protect_dataset_claims`] stores for JSON claims is what
/// [`unprotect_dataset_claims`] opens back to those claims.
pub proof fn lemma_protected_dataset_opens(
    key: Seq<u8>,
    tenant_id: u128,
    subject_id: u128,
    configuration: Seq<char>,
    claims: Seq<u8>,
    protected: Seq<u8>,
)
    requires
        json_text_parses(claims),
        claims.len() <= AEAD_MAX_INPUT_BYTES,
        dataset_aad_bytes(tenant_id, subject_id, configuration).len() <= AEAD_MAX_INPUT_BYTES,
        protected.len() == AEAD_NONCE_LEN + claims.len() + AEAD_TAG_LEN,
        protected.subrange(AEAD_NONCE_LEN as int, protected.len() as int) == aes256gcm_seal_of(
            key,
            protected.subrange(0, AEAD_NONCE_LEN as int),
            dataset_aad_bytes(tenant_id, subject_id, configuration),
            claims,
        ),
    ensures
        dataset_sealed_as(key, tenant_id, subject_id, configuration, claims, protected),
{
}

} // verus!
