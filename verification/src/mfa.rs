//! Multi-factor state: the sealed TOTP secret envelope and its associated
//! data, replay-safe acceptance of TOTP steps, backup-code bounds, and
//! remembered-device matching.

use vstd::prelude::*;
use vstd::utf8::{decode_utf8, encode_utf8, valid_utf8};

use crate::encoding::{be_bytes_u128, be_bytes_u64, push_be_u128, push_be_u64};
use crate::error::{consistency, unexpected, RepositoryError, StoreFailure, StoreFailureKind};
use crate::text::{string_from_chars, text_equals, trim_chars, trimmed_chars};

verus! {

pub const TOTP_ENVELOPE_VERSION: u8 = 1;
pub const TOTP_NONCE_LEN: usize = 12;
/// Length of the AES-GCM authentication tag inside the ciphertext.
pub const TOTP_TAG_LEN: usize = 16;
/// Version byte, nonce, tag and at least one byte of sealed secret.
pub const TOTP_MIN_PROTECTED_LEN: usize = 1 + TOTP_NONCE_LEN + TOTP_TAG_LEN + 1;
pub const TOTP_SECRET_MIN_BYTES: usize = 16;
pub const TOTP_SECRET_MAX_BYTES: usize = 128;

/// The ASCII bytes of `nazo-totp-seed-v1`, the domain tag that starts every
/// TOTP associated-data block.
pub open spec fn totp_aad_prefix() -> Seq<u8> {
    seq![110u8, 97, 122, 111, 45, 116, 111, 116, 112, 45, 115, 101, 101, 100, 45, 118, 49]
}

/// The associated data that binds a sealed TOTP secret to its tenant, its
/// user and the key version that sealed it: domain tag, tenant id, user id,
/// the key id's byte length as a big-endian `u64`, then the key id.
pub open spec fn totp_aad_bytes(tenant_id: u128, user_id: u128, key_id: Seq<char>) -> Seq<u8> {
    totp_aad_prefix() + be_bytes_u128(tenant_id) + be_bytes_u128(user_id) + be_bytes_u64(
        encode_utf8(key_id).len() as u64,
    ) + encode_utf8(key_id)
}

/// The associated data for sealing or opening the TOTP secret of
/// `user_id` in `tenant_id` under the key `key_id`.
pub fn totp_aad(tenant_id: u128, user_id: u128, key_id: &str) -> (aad: Vec<u8>)
    ensures
        aad@ == totp_aad_bytes(tenant_id, user_id, key_id@),
{
    let prefix: [u8; 17] = [110, 97, 122, 111, 45, 116, 111, 116, 112, 45, 115, 101, 101, 100, 45, 118, 49];
    let key_bytes = key_id.as_bytes();
    let mut aad: Vec<u8> = Vec::new();
    aad.extend_from_slice(&prefix);
    assert(aad@ =~= totp_aad_prefix());
    push_be_u128(&mut aad, tenant_id);
    push_be_u128(&mut aad, user_id);
    let key_len = key_bytes.len() as u64;
    push_be_u64(&mut aad, key_len);
    aad.extend_from_slice(key_bytes);
    aad
}

/// The stored form of a sealed TOTP secret: version byte, nonce, then the
/// AEAD ciphertext (tag included).
pub open spec fn totp_envelope(nonce: Seq<u8>, ciphertext: Seq<u8>) -> Seq<u8> {
    seq![TOTP_ENVELOPE_VERSION] + nonce + ciphertext
}

/// Frame a freshly sealed secret for storage.
pub fn frame_totp_envelope(nonce: &[u8; 12], ciphertext: &[u8]) -> (protected: Vec<u8>)
    ensures
        protected@ == totp_envelope(nonce@, ciphertext@),
{
    let mut protected: Vec<u8> = Vec::new();
    protected.push(TOTP_ENVELOPE_VERSION);
    protected.extend_from_slice(nonce);
    protected.extend_from_slice(ciphertext);
    protected
}

/// Why a TOTP secret could not be sealed, opened or accepted.
#[derive(Clone, Copy, Debug, PartialEq, Eq, Structural)]
pub enum TotpSecretError {
    KeysNotConfigured,
    UnavailableKeyVersion,
    MalformedEnvelope,
    InvalidKey,
    EncryptionFailed,
    AuthenticationFailed,
    NotUtf8,
    LengthOutOfRange,
}

/// The diagnostic each TOTP secret failure is reported with.
pub open spec fn totp_error_message(error: TotpSecretError) -> Seq<char> {
    match error {
        TotpSecretError::KeysNotConfigured => "MFA TOTP encryption key is not configured; TOTP operations are disabled"@,
        TotpSecretError::UnavailableKeyVersion => "TOTP secret uses an unavailable encryption key version"@,
        TotpSecretError::MalformedEnvelope => "TOTP secret envelope is malformed"@,
        TotpSecretError::InvalidKey => "invalid TOTP encryption key"@,
        TotpSecretError::EncryptionFailed => "TOTP secret encryption failed"@,
        TotpSecretError::AuthenticationFailed => "TOTP secret authentication failed"@,
        TotpSecretError::NotUtf8 => "TOTP secret is not valid UTF-8"@,
        TotpSecretError::LengthOutOfRange => "TOTP secret is shorter than 16 bytes or exceeds the supported length"@,
    }
}

impl TotpSecretError {
    /// The repository error: a failed encryption is `Unexpected`, every
    /// other failure is a `Consistency` problem of the stored state or the
    /// configuration.
    pub fn into_repository_error(self) -> (error: RepositoryError)
        ensures
            self == TotpSecretError::EncryptionFailed ==> (error matches RepositoryError::Unexpected(text)
                && text@ == totp_error_message(self)),
            self != TotpSecretError::EncryptionFailed ==> (error matches RepositoryError::Consistency(text)
                && text@ == totp_error_message(self)),
    {
        match self {
            TotpSecretError::KeysNotConfigured => consistency("MFA TOTP encryption key is not configured; TOTP operations are disabled"),
            TotpSecretError::UnavailableKeyVersion => consistency("TOTP secret uses an unavailable encryption key version"),
            TotpSecretError::MalformedEnvelope => consistency("TOTP secret envelope is malformed"),
            TotpSecretError::InvalidKey => consistency("invalid TOTP encryption key"),
            TotpSecretError::EncryptionFailed => unexpected("TOTP secret encryption failed"),
            TotpSecretError::AuthenticationFailed => consistency("TOTP secret authentication failed"),
            TotpSecretError::NotUtf8 => consistency("TOTP secret is not valid UTF-8"),
            TotpSecretError::LengthOutOfRange => consistency("TOTP secret is shorter than 16 bytes or exceeds the supported length"),
        }
    }
}

/// A TOTP secret is acceptable when, trimmed of surrounding whitespace, it
/// is at least 16 bytes of UTF-8, and untrimmed it is at most 128 bytes.
pub open spec fn totp_secret_length_ok(secret: Seq<char>) -> bool {
    &&& encode_utf8(trim_chars(secret)).len() >= TOTP_SECRET_MIN_BYTES
    &&& encode_utf8(secret).len() <= TOTP_SECRET_MAX_BYTES
}

/// The length rule applied before sealing and after opening a secret.
pub fn validate_totp_secret(secret: &str) -> (result: Result<(), TotpSecretError>)
    ensures
        result is Ok <==> totp_secret_length_ok(secret@),
        result is Err ==> result == Err::<(), TotpSecretError>(TotpSecretError::LengthOutOfRange),
{
    let trimmed = trimmed_chars(secret);
    let trimmed_text = string_from_chars(trimmed.as_slice());
    let trimmed_len = trimmed_text.as_str().as_bytes().len();
    let secret_len = secret.as_bytes().len();
    if trimmed_len < TOTP_SECRET_MIN_BYTES || secret_len > TOTP_SECRET_MAX_BYTES {
        Err(TotpSecretError::LengthOutOfRange)
    } else {
        Ok(())
    }
}

/// Calls `String::from_utf8`.  Trusted: the bytes decode exactly when they
/// are well-formed UTF-8, and the text is their decoding.
#[verifier::external_body]
fn utf8_text(bytes: Vec<u8>) -> (result: Option<String>)
    ensures
        result is Some <==> valid_utf8(bytes@),
        result matches Some(text) ==> text@ == decode_utf8(bytes@),
{
    String::from_utf8(bytes).ok()
}

/// Accept the plaintext of an opened envelope: it must be UTF-8 and obey
/// the secret length rule.
pub fn accept_totp_plaintext(plaintext: Vec<u8>) -> (result: Result<String, TotpSecretError>)
    ensures
        !valid_utf8(plaintext@) ==> result == Err::<String, TotpSecretError>(TotpSecretError::NotUtf8),
        valid_utf8(plaintext@) && !totp_secret_length_ok(decode_utf8(plaintext@)) ==> result
            == Err::<String, TotpSecretError>(TotpSecretError::LengthOutOfRange),
        valid_utf8(plaintext@) && totp_secret_length_ok(decode_utf8(plaintext@)) ==> (result matches Ok(
            secret,
        ) && secret@ == decode_utf8(plaintext@)),
{
    let Some(secret) = utf8_text(plaintext) else {
        return Err(TotpSecretError::NotUtf8);
    };
    match validate_totp_secret(secret.as_str()) {
        Ok(()) => Ok(secret),
        Err(error) => Err(error),
    }
}

/// The configured TOTP key ring, by key id: the current key, which seals
/// new secrets, and an optional previous key still accepted for opening.
#[derive(Clone, Debug)]
pub struct TotpKeyIds {
    pub current: String,
    pub previous: Option<String>,
}

/// Which key of the ring opens a secret.
#[derive(Clone, Copy, Debug, PartialEq, Eq, Structural)]
pub enum TotpKeySlot {
    Current,
    Previous,
}

/// TOTP operations need a configured key ring.
pub fn require_totp_keys(keys: Option<&TotpKeyIds>) -> (result: Result<(), TotpSecretError>)
    ensures
        keys is Some ==> result is Ok,
        keys is None ==> result == Err::<(), TotpSecretError>(TotpSecretError::KeysNotConfigured),
{
    match keys {
        Some(_) => Ok(()),
        None => Err(TotpSecretError::KeysNotConfigured),
    }
}

/// A stored envelope taken apart, with the key that must open it.
#[derive(Clone, Debug)]
pub struct SealedTotpSecret {
    pub key: TotpKeySlot,
    pub nonce: [u8; 12],
    pub ciphertext: Vec<u8>,
}

/// The key that opens a secret sealed under `key_id`: the current key when
/// the ids match, else the previous key when it matches.
pub open spec fn totp_key_for(keys: TotpKeyIds, key_id: Seq<char>) -> Option<TotpKeySlot> {
    if keys.current@ == key_id {
        Some(TotpKeySlot::Current)
    } else if keys.previous matches Some(previous) && previous@ == key_id {
        Some(TotpKeySlot::Previous)
    } else {
        None
    }
}

/// A stored envelope is well-formed when it is long enough to hold the
/// version, nonce, tag and one byte of secret, and starts with version 1.
pub open spec fn totp_envelope_well_formed(protected: Seq<u8>) -> bool {
    protected.len() >= TOTP_MIN_PROTECTED_LEN && protected[0] == TOTP_ENVELOPE_VERSION
}

/// Take a stored envelope apart for opening: a key ring must be configured
/// and hold the key the secret was sealed under, and the envelope must be
/// well-formed.  The checks come in that order.
pub fn open_totp_envelope(keys: Option<&TotpKeyIds>, key_id: &str, protected: &[u8]) -> (result: Result<
    SealedTotpSecret,
    TotpSecretError,
>)
    ensures
        match keys {
            None => result == Err::<SealedTotpSecret, TotpSecretError>(TotpSecretError::KeysNotConfigured),
            Some(ring) => match totp_key_for(*ring, key_id@) {
                None => result == Err::<SealedTotpSecret, TotpSecretError>(
                    TotpSecretError::UnavailableKeyVersion,
                ),
                Some(slot) => if totp_envelope_well_formed(protected@) {
                    result matches Ok(sealed) && sealed.key == slot && protected@ == totp_envelope(
                        sealed.nonce@,
                        sealed.ciphertext@,
                    )
                } else {
                    result == Err::<SealedTotpSecret, TotpSecretError>(TotpSecretError::MalformedEnvelope)
                },
            },
        },
{
    let Some(ring) = keys else {
        return Err(TotpSecretError::KeysNotConfigured);
    };
    let key = if text_equals(ring.current.as_str(), key_id) {
        TotpKeySlot::Current
    } else {
        match &ring.previous {
            Some(previous) => if text_equals(previous.as_str(), key_id) {
                TotpKeySlot::Previous
            } else {
                return Err(TotpSecretError::UnavailableKeyVersion);
            },
            None => return Err(TotpSecretError::UnavailableKeyVersion),
        }
    };
    if protected.len() < TOTP_MIN_PROTECTED_LEN || protected[0] != TOTP_ENVELOPE_VERSION {
        return Err(TotpSecretError::MalformedEnvelope);
    }
    let nonce: [u8; 12] = [
        protected[1],
        protected[2],
        protected[3],
        protected[4],
        protected[5],
        protected[6],
        protected[7],
        protected[8],
        protected[9],
        protected[10],
        protected[11],
        protected[12],
    ];
    let body = vstd::slice::slice_subrange(protected, 1 + TOTP_NONCE_LEN, protected.len());
    let mut ciphertext: Vec<u8> = Vec::new();
    ciphertext.extend_from_slice(body);
    assert(nonce@ =~= protected@.subrange(1, 13));
    assert(protected@ =~= totp_envelope(nonce@, ciphertext@));
    Ok(SealedTotpSecret { key, nonce, ciphertext })
}


/// What a TOTP verification concluded.
#[derive(Clone, Copy, Debug, PartialEq, Eq, Structural)]
pub enum TotpVerificationOutcome {
    Accepted,
    Invalid,
    Replay,
}

/// The outcome recorded in the identity security log.
#[derive(Clone, Copy, Debug, PartialEq, Eq, Structural)]
pub enum MfaAuditOutcome {
    Success,
    InvalidCredential,
    Replay,
}

/// The reason recorded in the identity security log.
#[derive(Clone, Copy, Debug, PartialEq, Eq, Structural)]
pub enum MfaAuditReason {
    TotpAccepted,
    TotpInvalid,
    TotpReplay,
    BackupCodeAccepted,
    BackupCodeInvalid,
    BackupCodeReplay,
}

/// The security event a TOTP verification outcome is logged as.
pub open spec fn totp_audit_entry(outcome: TotpVerificationOutcome) -> (MfaAuditOutcome, MfaAuditReason) {
    match outcome {
        TotpVerificationOutcome::Accepted => (MfaAuditOutcome::Success, MfaAuditReason::TotpAccepted),
        TotpVerificationOutcome::Invalid => (MfaAuditOutcome::InvalidCredential, MfaAuditReason::TotpInvalid),
        TotpVerificationOutcome::Replay => (MfaAuditOutcome::Replay, MfaAuditReason::TotpReplay),
    }
}

pub fn totp_audit(outcome: TotpVerificationOutcome) -> (entry: (MfaAuditOutcome, MfaAuditReason))
    ensures
        entry == totp_audit_entry(outcome),
{
    match outcome {
        TotpVerificationOutcome::Accepted => (MfaAuditOutcome::Success, MfaAuditReason::TotpAccepted),
        TotpVerificationOutcome::Invalid => (MfaAuditOutcome::InvalidCredential, MfaAuditReason::TotpInvalid),
        TotpVerificationOutcome::Replay => (MfaAuditOutcome::Replay, MfaAuditReason::TotpReplay),
    }
}

/// A verified step may be used when no step was used before, or it is
/// strictly later than the last one used.
pub open spec fn totp_step_fresh(last_used_step: Option<i64>, step: i64) -> bool {
    last_used_step is None || last_used_step->0 < step
}

/// Consuming a code against a confirmed credential.
#[derive(Clone, Copy, Debug, PartialEq, Eq, Structural)]
pub struct TotpConsumeDecision {
    pub outcome: TotpVerificationOutcome,
    /// The step to record as last used, when the code is accepted.
    pub record_step: Option<i64>,
}

pub open spec fn totp_consume(credential: Option<Option<i64>>, verified_step: Option<i64>) -> TotpConsumeDecision {
    match credential {
        None => TotpConsumeDecision { outcome: TotpVerificationOutcome::Invalid, record_step: None },
        Some(last) => match verified_step {
            None => TotpConsumeDecision { outcome: TotpVerificationOutcome::Invalid, record_step: None },
            Some(step) => if totp_step_fresh(last, step) {
                TotpConsumeDecision { outcome: TotpVerificationOutcome::Accepted, record_step: Some(step) }
            } else {
                TotpConsumeDecision { outcome: TotpVerificationOutcome::Replay, record_step: None }
            },
        },
    }
}

/// Decide a sign-in code: `credential` is the confirmed credential's last
/// used step (`None` when no confirmed credential exists) and
/// `verified_step` the time step the code matched, if any.
pub fn decide_totp_consumption(credential: Option<Option<i64>>, verified_step: Option<i64>) -> (decision: TotpConsumeDecision)
    ensures
        decision == totp_consume(credential, verified_step),
{
    match credential {
        None => TotpConsumeDecision { outcome: TotpVerificationOutcome::Invalid, record_step: None },
        Some(last) => match verified_step {
            None => TotpConsumeDecision { outcome: TotpVerificationOutcome::Invalid, record_step: None },
            Some(step) => {
                let fresh = match last {
                    None => true,
                    Some(last_step) => last_step < step,
                };
                if fresh {
                    TotpConsumeDecision { outcome: TotpVerificationOutcome::Accepted, record_step: Some(step) }
                } else {
                    TotpConsumeDecision { outcome: TotpVerificationOutcome::Replay, record_step: None }
                }
            },
        },
    }
}

/// A TOTP code is single-use: once a step is accepted and recorded, the same
/// step, and every earlier one, is a replay; and the recorded step only
/// moves forward.
pub proof fn lemma_totp_step_single_use(last: Option<i64>, step: i64, later_attempt: i64)
    requires
        totp_consume(Some(last), Some(step)).outcome == TotpVerificationOutcome::Accepted,
        later_attempt <= step,
    ensures
        totp_consume(Some(last), Some(step)).record_step == Some(step),
        last matches Some(previous) ==> previous < step,
        totp_consume(Some(Some(step)), Some(later_attempt)).outcome == TotpVerificationOutcome::Replay,
{
}

/// What a sign-in code yields, in terms of what was read: a code that
/// matches no time step, or any code without a confirmed credential, is
/// invalid and records nothing; a matched step is a replay exactly when it
/// is not after the last used step; otherwise it is accepted and recorded.
pub proof fn lemma_totp_consumption_outcomes(credential: Option<Option<i64>>, verified_step: Option<i64>)
    ensures
        credential is None || verified_step is None ==> totp_consume(credential, verified_step)
            == (TotpConsumeDecision { outcome: TotpVerificationOutcome::Invalid, record_step: None }),
        (totp_consume(credential, verified_step).outcome == TotpVerificationOutcome::Replay) == (
        credential matches Some(Some(last)) && verified_step matches Some(step) && step <= last),
        (totp_consume(credential, verified_step).outcome == TotpVerificationOutcome::Accepted) == (
        credential matches Some(last) && verified_step matches Some(step) && (last is None || last->0 < step)),
        totp_consume(credential, verified_step).outcome == TotpVerificationOutcome::Accepted
            ==> totp_consume(credential, verified_step).record_step == verified_step,
        totp_consume(credential, verified_step).outcome != TotpVerificationOutcome::Accepted
            ==> totp_consume(credential, verified_step).record_step is None,
{
}

/// Advance the last used step of the confirmed credential to `step` when it
/// is fresh; `credential` as in [`decide_totp_consumption`].  Returns
/// whether the step was recorded.
pub fn advance_totp_step(credential: Option<Option<i64>>, step: i64) -> (changed: bool)
    ensures
        changed == (credential matches Some(last) && totp_step_fresh(last, step)),
{
    match credential {
        None => false,
        Some(None) => true,
        Some(Some(last)) => last < step,
    }
}

/// Recording a step directly agrees with consuming a code of that step.
pub proof fn lemma_advance_agrees_with_consumption(credential: Option<Option<i64>>, step: i64)
    ensures
        (credential matches Some(last) && totp_step_fresh(last, step)) == (totp_consume(
            credential,
            Some(step),
        ).outcome == TotpVerificationOutcome::Accepted),
{
}

/// The security event of a direct step advance.
pub fn totp_advance_audit(changed: bool) -> (entry: (MfaAuditOutcome, MfaAuditReason))
    ensures
        changed ==> entry == (MfaAuditOutcome::Success, MfaAuditReason::TotpAccepted),
        !changed ==> entry == (MfaAuditOutcome::Replay, MfaAuditReason::TotpReplay),
{
    if changed {
        (MfaAuditOutcome::Success, MfaAuditReason::TotpAccepted)
    } else {
        (MfaAuditOutcome::Replay, MfaAuditReason::TotpReplay)
    }
}

/// Confirming a pending enrollment.
#[derive(Clone, Copy, Debug, PartialEq, Eq, Structural)]
pub struct TotpConfirmDecision {
    pub outcome: TotpVerificationOutcome,
    /// The step to confirm the credential with, when the code is accepted.
    pub confirm_step: Option<i64>,
}

pub open spec fn totp_confirm(pending: bool, verified_step: Option<i64>) -> TotpConfirmDecision {
    if !pending {
        TotpConfirmDecision { outcome: TotpVerificationOutcome::Replay, confirm_step: None }
    } else if verified_step is None {
        TotpConfirmDecision { outcome: TotpVerificationOutcome::Invalid, confirm_step: None }
    } else {
        TotpConfirmDecision { outcome: TotpVerificationOutcome::Accepted, confirm_step: verified_step }
    }
}

/// A confirmation code confirms only a pending credential and only when it
/// matched a time step, which then becomes the confirmed step; without a
/// pending credential every attempt is a replay, and a code that matched no
/// step is invalid.
pub proof fn lemma_totp_confirmation_outcomes(pending: bool, verified_step: Option<i64>)
    ensures
        !pending ==> totp_confirm(pending, verified_step).outcome == TotpVerificationOutcome::Replay,
        pending && verified_step is None ==> totp_confirm(pending, verified_step).outcome
            == TotpVerificationOutcome::Invalid,
        (totp_confirm(pending, verified_step).outcome == TotpVerificationOutcome::Accepted) == (pending
            && verified_step is Some),
        totp_confirm(pending, verified_step).outcome == TotpVerificationOutcome::Accepted ==> totp_confirm(
            pending,
            verified_step,
        ).confirm_step == verified_step,
        totp_confirm(pending, verified_step).outcome != TotpVerificationOutcome::Accepted ==> totp_confirm(
            pending,
            verified_step,
        ).confirm_step is None,
{
}

/// Decide a confirmation code: without a pending (unconfirmed) credential
/// the attempt is a replay; otherwise the verified step confirms it.
pub fn decide_totp_confirmation(pending: bool, verified_step: Option<i64>) -> (decision: TotpConfirmDecision)
    ensures
        decision == totp_confirm(pending, verified_step),
{
    if !pending {
        TotpConfirmDecision { outcome: TotpVerificationOutcome::Replay, confirm_step: None }
    } else {
        match verified_step {
            None => TotpConfirmDecision { outcome: TotpVerificationOutcome::Invalid, confirm_step: None },
            Some(step) => TotpConfirmDecision {
                outcome: TotpVerificationOutcome::Accepted,
                confirm_step: Some(step),
            },
        }
    }
}

/// A confirmation installs a full set of backup codes: the set must have
/// exactly the required size.
pub fn check_confirmation_backup_codes(hashes: &[String], required: usize) -> (result: Result<(), RepositoryError>)
    ensures
        hashes@.len() == required ==> result is Ok,
        hashes@.len() != required ==> result == Err::<(), RepositoryError>(RepositoryError::Conflict),
{
    if hashes.len() != required {
        Err(RepositoryError::Conflict)
    } else {
        Ok(())
    }
}

/// Replacing backup codes accepts at most `max_count` hashes.
pub fn validate_backup_hash_count(hashes: &[String], max_count: usize) -> (result: Result<(), RepositoryError>)
    ensures
        hashes@.len() <= max_count ==> result is Ok,
        hashes@.len() > max_count ==> result == Err::<(), RepositoryError>(RepositoryError::Conflict),
{
    if hashes.len() > max_count {
        Err(RepositoryError::Conflict)
    } else {
        Ok(())
    }
}

/// An unused backup code offered for comparison.
#[derive(Clone, Debug)]
pub struct BackupCodeCandidate {
    pub id: u128,
    pub hash: String,
}

/// Check the unused backup codes read for a user (at most `max_count + 1`
/// are read): more than `max_count` is a consistency failure, and so is an
/// empty hash.  Otherwise the rows are the candidates, in order.
pub fn backup_code_candidates(rows: Vec<BackupCodeCandidate>, max_count: usize) -> (result: Result<
    Vec<BackupCodeCandidate>,
    RepositoryError,
>)
    ensures
        rows@.len() > max_count ==> (result matches Err(RepositoryError::Consistency(text)) && text@
            == "persisted backup-code count exceeds the supported maximum"@),
        rows@.len() <= max_count && (exists|i: int| 0 <= i < rows@.len() && #[trigger] rows@[i].hash@.len()
            == 0) ==> (result matches Err(RepositoryError::Consistency(text)) && text@
            == "persisted backup-code hash is empty"@),
        rows@.len() <= max_count && (forall|i: int| 0 <= i < rows@.len() ==> #[trigger] rows@[i].hash@.len()
            > 0) ==> result == Ok::<Vec<BackupCodeCandidate>, RepositoryError>(rows),
{
    if rows.len() > max_count {
        return Err(consistency("persisted backup-code count exceeds the supported maximum"));
    }
    let mut i: usize = 0;
    while i < rows.len()
        invariant
            i <= rows@.len(),
            rows@.len() <= max_count,
            forall|j: int| 0 <= j < i ==> #[trigger] rows@[j].hash@.len() > 0,
        decreases rows@.len() - i,
    {
        if rows[i].hash.as_str().is_empty() {
            return Err(consistency("persisted backup-code hash is empty"));
        }
        i = i + 1;
    }
    Ok(rows)
}

/// The security event of a backup-code redemption: the code was marked used
/// (`changed`) or had already been used.
pub fn backup_code_audit(changed: bool) -> (entry: (MfaAuditOutcome, MfaAuditReason))
    ensures
        changed ==> entry == (MfaAuditOutcome::Success, MfaAuditReason::BackupCodeAccepted),
        !changed ==> entry == (MfaAuditOutcome::Replay, MfaAuditReason::BackupCodeReplay),
{
    if changed {
        (MfaAuditOutcome::Success, MfaAuditReason::BackupCodeAccepted)
    } else {
        (MfaAuditOutcome::Replay, MfaAuditReason::BackupCodeReplay)
    }
}

/// The write that starts a TOTP enrollment.
#[derive(Clone, Copy, Debug, PartialEq, Eq, Structural)]
pub enum TotpEnrollmentWrite {
    /// Replace the secret of the pending credential `id` and reset its step.
    ReplacePending(u128),
    /// Insert a new pending credential.
    Insert,
}

/// Starting an enrollment against the user's existing credential, if any
/// (`(id, confirmed)`): a confirmed credential is a conflict, a pending one
/// is replaced, otherwise a new one is inserted.
pub fn plan_totp_enrollment(existing: Option<(u128, bool)>) -> (result: Result<TotpEnrollmentWrite, RepositoryError>)
    ensures
        existing is None ==> result == Ok::<TotpEnrollmentWrite, RepositoryError>(TotpEnrollmentWrite::Insert),
        existing matches Some((id, false)) ==> result == Ok::<TotpEnrollmentWrite, RepositoryError>(
            TotpEnrollmentWrite::ReplacePending(id),
        ),
        existing matches Some((_, true)) ==> result == Err::<TotpEnrollmentWrite, RepositoryError>(
            RepositoryError::Conflict,
        ),
{
    match existing {
        None => Ok(TotpEnrollmentWrite::Insert),
        Some((id, confirmed)) => if confirmed {
            Err(RepositoryError::Conflict)
        } else {
            Ok(TotpEnrollmentWrite::ReplacePending(id))
        },
    }
}

/// A remembered device still valid at the time of the check.
#[derive(Clone, Debug)]
pub struct RememberedDeviceRow {
    pub id: u128,
    pub user_agent_hash: Option<String>,
}

pub open spec fn same_optional_text(a: Option<String>, b: Option<Seq<char>>) -> bool {
    match (a, b) {
        (None, None) => true,
        (Some(x), Some(y)) => x@ == y,
        _ => false,
    }
}

/// The device to touch when a remembered-device token is presented: the
/// live row for the token must carry the same user-agent hash as the
/// request (both absent, or equal).
pub fn remembered_device_match(row: Option<RememberedDeviceRow>, user_agent_hash: Option<&str>) -> (result: Option<u128>)
    ensures
        result is Some <==> (row matches Some(r) && same_optional_text(
            r.user_agent_hash,
            match user_agent_hash {
                Some(h) => Some(h@),
                None => None,
            },
        )),
        result matches Some(id) ==> row matches Some(r) && r.id == id,
{
    let Some(r) = row else {
        return None;
    };
    let same = match (&r.user_agent_hash, user_agent_hash) {
        (None, None) => true,
        (Some(stored), Some(presented)) => text_equals(stored.as_str(), presented),
        _ => false,
    };
    if same {
        Some(r.id)
    } else {
        None
    }
}

/// The store failures an MFA operation reports as a lost race.
pub open spec fn mfa_conflict_kind(kind: StoreFailureKind) -> bool {
    kind == StoreFailureKind::NotFound || kind == StoreFailureKind::RolledBack || kind
        == StoreFailureKind::UniqueViolation
}

/// How a failed MFA store operation is reported: a missing row, a rolled
/// back transaction and a unique-key violation are conflicts; anything else
/// is unexpected, with the store's description.
pub fn mfa_store_error(failure: StoreFailure) -> (error: RepositoryError)
    ensures
        mfa_conflict_kind(failure.kind) ==> error == RepositoryError::Conflict,
        !mfa_conflict_kind(failure.kind) ==> error == RepositoryError::Unexpected(failure.message),
{
    match failure.kind {
        StoreFailureKind::NotFound | StoreFailureKind::RolledBack | StoreFailureKind::UniqueViolation => {
            RepositoryError::Conflict
        },
        StoreFailureKind::CheckViolation | StoreFailureKind::Other => RepositoryError::Unexpected(
            failure.message,
        ),
    }
}

/// Opening a freshly framed envelope gives back exactly its nonce and
/// ciphertext: a framed envelope is well-formed whenever the ciphertext
/// holds a tag and a byte of secret, and no other 12-byte nonce and
/// ciphertext frame to the same bytes.
pub proof fn lemma_envelope_round_trip(nonce: Seq<u8>, ciphertext: Seq<u8>, other_nonce: Seq<u8>, other_ciphertext: Seq<u8>)
    requires
        nonce.len() == TOTP_NONCE_LEN,
        other_nonce.len() == TOTP_NONCE_LEN,
        ciphertext.len() >= TOTP_TAG_LEN + 1,
    ensures
        totp_envelope_well_formed(totp_envelope(nonce, ciphertext)),
        totp_envelope(other_nonce, other_ciphertext) == totp_envelope(nonce, ciphertext) ==> other_nonce
            == nonce && other_ciphertext == ciphertext,
{
    let e = totp_envelope(nonce, ciphertext);
    let f = totp_envelope(other_nonce, other_ciphertext);
    assert(e.subrange(1, 13) =~= nonce);
    assert(e.subrange(13, e.len() as int) =~= ciphertext);
    assert(f.subrange(1, 13) =~= other_nonce);
    assert(f.subrange(13, f.len() as int) =~= other_ciphertext);
}

} // verus!
