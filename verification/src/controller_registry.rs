//! Controller public-key registry: identity approvals, slot admission,
//! rotation and revocation decisions.
//!
//! Timestamps are microseconds since the Unix epoch.

use vstd::prelude::*;
use vstd::string::StringSliceAdditionalSpecFns;

use crate::digest::{base64url_nopad, base64url_nopad_of, blake3_hex, blake3_of, key_id_for_public_key, lower_hex_of, sha256_of};
use crate::text::{contains_control, is_control_char, is_lower_sha256_hex, is_lower_sha256_hex_bytes, text_equals};
use crate::error::{StoreFailure, StoreFailureKind};
use crate::time::MICROS_PER_SECOND;

verus! {

/// Fresh-2FA approval lifetime in seconds: a fixed ten-minute ceiling.
pub const IDENTITY_APPROVAL_TTL_SECONDS: i64 = 600;

/// Fixed controller key lifetime in seconds: exactly thirty days.
pub const CONTROLLER_KEY_TTL_SECONDS: i64 = 2_592_000;

/// Maximum number of concurrently non-revoked controller slots per deployment.
pub const MAX_ACTIVE_CONTROLLER_SLOTS: usize = 3;

/// Advisory-lock seed of the per-deployment identity lock shared by slot and
/// recovery-root mutations.
pub const DEPLOYMENT_IDENTITY_LOCK_SEED: i64 = 0x4E5A_4354_5200_0001;


/// Closed catalog of controller identity actions requiring fresh approval.
#[derive(Clone, Copy, Debug, PartialEq, Eq, Structural)]
pub enum ControllerIdentityAction {
    Bind,
    Add,
    Rotate,
    Revoke,
    RecoveryRootRotate,
}

/// The stored text of an action.
pub open spec fn action_text(action: ControllerIdentityAction) -> Seq<char> {
    match action {
        ControllerIdentityAction::Bind => "bind"@,
        ControllerIdentityAction::Add => "add"@,
        ControllerIdentityAction::Rotate => "rotate"@,
        ControllerIdentityAction::Revoke => "revoke"@,
        ControllerIdentityAction::RecoveryRootRotate => "recovery-root-rotate"@,
    }
}

/// The action whose stored text is `text`, if any.
pub open spec fn action_from_text(text: Seq<char>) -> Option<ControllerIdentityAction> {
    if text == "bind"@ {
        Some(ControllerIdentityAction::Bind)
    } else if text == "add"@ {
        Some(ControllerIdentityAction::Add)
    } else if text == "rotate"@ {
        Some(ControllerIdentityAction::Rotate)
    } else if text == "revoke"@ {
        Some(ControllerIdentityAction::Revoke)
    } else if text == "recovery-root-rotate"@ {
        Some(ControllerIdentityAction::RecoveryRootRotate)
    } else {
        None
    }
}

impl ControllerIdentityAction {
    pub fn as_str(self) -> (text: &'static str)
        ensures
            text@ == action_text(self),
    {
        match self {
            ControllerIdentityAction::Bind => "bind",
            ControllerIdentityAction::Add => "add",
            ControllerIdentityAction::Rotate => "rotate",
            ControllerIdentityAction::Revoke => "revoke",
            ControllerIdentityAction::RecoveryRootRotate => "recovery-root-rotate",
        }
    }

    pub fn parse(value: &str) -> (action: Option<ControllerIdentityAction>)
        ensures
            action == action_from_text(value@),
    {
        if text_equals(value, "bind") {
            Some(ControllerIdentityAction::Bind)
        } else if text_equals(value, "add") {
            Some(ControllerIdentityAction::Add)
        } else if text_equals(value, "rotate") {
            Some(ControllerIdentityAction::Rotate)
        } else if text_equals(value, "revoke") {
            Some(ControllerIdentityAction::Revoke)
        } else if text_equals(value, "recovery-root-rotate") {
            Some(ControllerIdentityAction::RecoveryRootRotate)
        } else {
            None
        }
    }
}

/// Parsing the stored text of an action gives the action back.
pub proof fn lemma_action_text_round_trip(action: ControllerIdentityAction)
    ensures
        action_from_text(action_text(action)) == Some(action),
{
    reveal_strlit("bind");
    reveal_strlit("add");
    reveal_strlit("rotate");
    reveal_strlit("revoke");
    reveal_strlit("recovery-root-rotate");
    assert("bind"@.len() != "add"@.len());
    assert("bind"@.len() != "rotate"@.len());
    assert("bind"@.len() != "revoke"@.len());
    assert("add"@.len() != "rotate"@.len());
    assert("add"@.len() != "revoke"@.len());
    assert("rotate"@[2] != "revoke"@[2]);
}

/// Why an approval token could not be redeemed.
#[derive(Debug)]
pub enum IdentityApprovalError {
    /// The token does not correspond to any issued approval.
    UnknownToken,
    /// The approval was already consumed: replay.
    Replayed,
    /// The unconsumed approval's window has passed.
    Expired,
    /// The approval was issued for a different deployment, action or digest.
    ActionMismatch,
    /// Infrastructure failure.
    Transport(String),
}

/// An infrastructure failure during approval handling, carried with its
/// description.
pub fn approval_transport(message: String) -> (error: IdentityApprovalError)
    ensures
        error == IdentityApprovalError::Transport(message),
{
    IdentityApprovalError::Transport(message)
}

/// One stored approval as read for redemption.
#[derive(Clone, Debug)]
pub struct ApprovalRecord {
    pub expires_at: i64,
    pub consumed_at: Option<i64>,
    pub deployment_id: String,
    pub action: String,
    pub action_sha256: String,
}

/// What redeeming `record` for the expected binding at `now` yields.
pub open spec fn approval_outcome(
    record: Option<ApprovalRecord>,
    expected_deployment_id: Seq<char>,
    expected_action: ControllerIdentityAction,
    expected_action_sha256: Seq<char>,
    now: i64,
) -> Result<(), IdentityApprovalError> {
    match record {
        None => Err(IdentityApprovalError::UnknownToken),
        Some(r) => if r.consumed_at is Some {
            Err(IdentityApprovalError::Replayed)
        } else if r.expires_at <= now {
            Err(IdentityApprovalError::Expired)
        } else if r.deployment_id@ != expected_deployment_id || r.action@ != action_text(
            expected_action,
        ) || r.action_sha256@ != expected_action_sha256 {
            Err(IdentityApprovalError::ActionMismatch)
        } else {
            Ok(())
        },
    }
}

/// Redeeming an approval, in terms of the stored record: no record is an
/// unknown token, a consumed one a replay, an unconsumed one past its window
/// expired, one issued for another deployment, action or digest a mismatch;
/// an unconsumed approval inside its window for exactly this binding
/// redeems.
pub proof fn lemma_approval_outcomes(
    record: Option<ApprovalRecord>,
    expected_deployment_id: Seq<char>,
    expected_action: ControllerIdentityAction,
    expected_action_sha256: Seq<char>,
    now: i64,
)
    ensures
        record is None ==> approval_outcome(record, expected_deployment_id, expected_action, expected_action_sha256, now)
            == Err::<(), IdentityApprovalError>(IdentityApprovalError::UnknownToken),
        record matches Some(r) && r.consumed_at is Some ==> approval_outcome(
            record,
            expected_deployment_id,
            expected_action,
            expected_action_sha256,
            now,
        ) == Err::<(), IdentityApprovalError>(IdentityApprovalError::Replayed),
        record matches Some(r) && r.consumed_at is None && r.expires_at <= now ==> approval_outcome(
            record,
            expected_deployment_id,
            expected_action,
            expected_action_sha256,
            now,
        ) == Err::<(), IdentityApprovalError>(IdentityApprovalError::Expired),
        (approval_outcome(record, expected_deployment_id, expected_action, expected_action_sha256, now) is Ok) == (
        record matches Some(r) && r.consumed_at is None && now < r.expires_at && r.deployment_id@
            == expected_deployment_id && r.action@ == action_text(expected_action) && r.action_sha256@
            == expected_action_sha256),
{
}

/// The stored approval after a successful redemption at `now`.
pub open spec fn consumed_approval(record: ApprovalRecord, now: i64) -> ApprovalRecord {
    ApprovalRecord { consumed_at: Some(now), ..record }
}

/// Decide whether an approval may be consumed: single use, unexpired, and
/// bound to exactly this deployment, action and action digest.
pub fn check_approval_redemption(
    record: Option<&ApprovalRecord>,
    expected_deployment_id: &str,
    expected_action: ControllerIdentityAction,
    expected_action_sha256: &str,
    now: i64,
) -> (result: Result<(), IdentityApprovalError>)
    ensures
        result == approval_outcome(
            match record {
                Some(r) => Some(*r),
                None => None,
            },
            expected_deployment_id@,
            expected_action,
            expected_action_sha256@,
            now,
        ),
{
    let Some(row) = record else {
        return Err(IdentityApprovalError::UnknownToken);
    };
    if row.consumed_at.is_some() {
        return Err(IdentityApprovalError::Replayed);
    }
    if row.expires_at <= now {
        return Err(IdentityApprovalError::Expired);
    }
    if !text_equals(row.deployment_id.as_str(), expected_deployment_id) || !text_equals(
        row.action.as_str(),
        expected_action.as_str(),
    ) || !text_equals(row.action_sha256.as_str(), expected_action_sha256) {
        return Err(IdentityApprovalError::ActionMismatch);
    }
    Ok(())
}

/// An approval that was redeemed once is refused as a replay afterwards,
/// whatever binding or time the second attempt presents.
pub proof fn lemma_approval_single_use(
    record: ApprovalRecord,
    deployment_id: Seq<char>,
    action: ControllerIdentityAction,
    action_sha256: Seq<char>,
    now: i64,
    other_deployment_id: Seq<char>,
    other_action: ControllerIdentityAction,
    other_action_sha256: Seq<char>,
    later: i64,
)
    requires
        approval_outcome(Some(record), deployment_id, action, action_sha256, now) is Ok,
    ensures
        approval_outcome(
            Some(consumed_approval(record, now)),
            other_deployment_id,
            other_action,
            other_action_sha256,
            later,
        ) == Err::<(), IdentityApprovalError>(IdentityApprovalError::Replayed),
{
}

/// A redeemable approval was issued for exactly the expected binding and
/// was still inside its window.
pub proof fn lemma_redeemable_approval_matches_binding(
    record: ApprovalRecord,
    deployment_id: Seq<char>,
    action: ControllerIdentityAction,
    action_sha256: Seq<char>,
    now: i64,
)
    requires
        approval_outcome(Some(record), deployment_id, action, action_sha256, now) is Ok,
    ensures
        record.consumed_at is None,
        now < record.expires_at,
        record.deployment_id@ == deployment_id,
        action_from_text(record.action@) == Some(action),
        record.action_sha256@ == action_sha256,
{
    lemma_action_text_round_trip(action);
}

} // verus!

verus! {

/// Status catalog of a stored controller slot.
#[derive(Clone, Copy, Debug, PartialEq, Eq, Structural)]
pub enum ControllerSlotStatus {
    /// Enrolled and eligible for admission until `expires_at`.
    Active,
    /// Terminal state; can never admit operations again.
    Revoked,
}

pub open spec fn slot_status_from_text(text: Seq<char>) -> Option<ControllerSlotStatus> {
    if text == "active"@ {
        Some(ControllerSlotStatus::Active)
    } else if text == "revoked"@ {
        Some(ControllerSlotStatus::Revoked)
    } else {
        None
    }
}

impl ControllerSlotStatus {
    pub fn from_str(value: &str) -> (status: Option<ControllerSlotStatus>)
        ensures
            status == slot_status_from_text(value@),
    {
        if text_equals(value, "active") {
            Some(ControllerSlotStatus::Active)
        } else if text_equals(value, "revoked") {
            Some(ControllerSlotStatus::Revoked)
        } else {
            None
        }
    }
}

/// One authoritative controller slot (public material only).
#[derive(Clone, Debug)]
pub struct StoredControllerSlot {
    pub deployment_id: String,
    pub controller_id: String,
    pub label: String,
    pub kid: String,
    pub public_key: Vec<u8>,
    pub slot_index: i16,
    pub issued_at: i64,
    pub expires_at: i64,
    pub last_used_at: Option<i64>,
    pub status: ControllerSlotStatus,
    pub revoked_at: Option<i64>,
    pub created_at: i64,
    pub updated_at: i64,
}

/// Non-secret slot summary used in limit errors and approval screens.
#[derive(Clone, Debug)]
pub struct ControllerSlotSummary {
    pub controller_id: String,
    pub label: String,
    pub kid: String,
    pub slot_index: i16,
    pub issued_at: i64,
    pub expires_at: i64,
    pub status: ControllerSlotStatus,
}

/// A slot that admits new operations: exists, non-revoked, unexpired.
#[derive(Clone, Debug)]
pub struct AdmittedController {
    pub controller_id: String,
    pub kid: String,
    pub public_key: Vec<u8>,
    pub expires_at: i64,
}

/// Server-side input for enrolling one new controller slot.
#[derive(Clone, Debug)]
pub struct NewControllerSlot {
    pub deployment_id: String,
    pub label: String,
    pub kid: String,
    pub public_key: [u8; 32],
}

/// Atomic same-`controller_id` key replacement.
#[derive(Clone, Debug)]
pub struct RotateControllerKey {
    pub deployment_id: String,
    pub controller_id: String,
    pub label: String,
    pub kid: String,
    pub public_key: [u8; 32],
}

/// Typed registry failures.
#[derive(Debug)]
pub enum ControllerRegistryError {
    /// A fourth active slot was requested; carries the current active set.
    SlotLimit(Vec<ControllerSlotSummary>),
    UnknownController,
    AlreadyRevoked,
    DuplicateKid,
    InvalidIdentity(String),
    Transport(String),
}

/// A failed slot insert under the per-deployment lock: the only reachable
/// unique violation is the per-deployment key id backstop.
pub fn slot_insert_error(failure: StoreFailure) -> (error: ControllerRegistryError)
    ensures
        failure.kind == StoreFailureKind::UniqueViolation ==> error is DuplicateKid,
        failure.kind != StoreFailureKind::UniqueViolation ==> (error matches ControllerRegistryError::Transport(
            message,
        ) && message == failure.message),
{
    match failure.kind {
        StoreFailureKind::UniqueViolation => ControllerRegistryError::DuplicateKid,
        _ => ControllerRegistryError::Transport(failure.message),
    }
}

pub open spec fn summary_of(slot: StoredControllerSlot) -> ControllerSlotSummary {
    ControllerSlotSummary {
        controller_id: slot.controller_id,
        label: slot.label,
        kid: slot.kid,
        slot_index: slot.slot_index,
        issued_at: slot.issued_at,
        expires_at: slot.expires_at,
        status: slot.status,
    }
}

impl StoredControllerSlot {
    /// Non-secret summary; never carries public key bytes.
    pub fn summary(&self) -> (summary: ControllerSlotSummary)
        ensures
            summary == summary_of(*self),
    {
        ControllerSlotSummary {
            controller_id: self.controller_id.clone(),
            label: self.label.clone(),
            kid: self.kid.clone(),
            slot_index: self.slot_index,
            issued_at: self.issued_at,
            expires_at: self.expires_at,
            status: self.status,
        }
    }
}

/// Whether `slot` admits a new application-level operation at `now`.
pub open spec fn slot_admits(slot: StoredControllerSlot, now: i64) -> bool {
    slot.status == ControllerSlotStatus::Active && now < slot.expires_at
}

pub fn admits(slot: &StoredControllerSlot, now: i64) -> (result: bool)
    ensures
        result == slot_admits(*slot, now),
{
    slot.status == ControllerSlotStatus::Active && now < slot.expires_at
}

/// Whether some slot of `active` occupies `index`.
pub open spec fn index_taken(active: Seq<StoredControllerSlot>, index: int) -> bool {
    exists|i: int| 0 <= i < active.len() && #[trigger] active[i].slot_index == index
}

/// The lowest legal slot index (0, 1 or 2) that no active slot occupies.
pub open spec fn lowest_free_index(active: Seq<StoredControllerSlot>) -> Option<i16> {
    if !index_taken(active, 0) {
        Some(0i16)
    } else if !index_taken(active, 1) {
        Some(1i16)
    } else if !index_taken(active, 2) {
        Some(2i16)
    } else {
        None
    }
}

fn index_is_taken(active: &[StoredControllerSlot], index: i16) -> (taken: bool)
    ensures
        taken == index_taken(active@, index as int),
{
    let mut i: usize = 0;
    while i < active.len()
        invariant
            i <= active@.len(),
            forall|j: int| 0 <= j < i ==> active@[j].slot_index != index,
        decreases active@.len() - i,
    {
        if active[i].slot_index == index {
            return true;
        }
        i = i + 1;
    }
    false
}

pub fn lowest_free_slot_index(active: &[StoredControllerSlot]) -> (index: Option<i16>)
    ensures
        index == lowest_free_index(active@),
{
    if !index_is_taken(active, 0) {
        Some(0)
    } else if !index_is_taken(active, 1) {
        Some(1)
    } else if !index_is_taken(active, 2) {
        Some(2)
    } else {
        None
    }
}

/// Where and for how long a new slot is placed.
#[derive(Clone, Copy, Debug, PartialEq, Eq, Structural)]
pub struct SlotPlacement {
    pub slot_index: i16,
    pub issued_at: i64,
    pub expires_at: i64,
}

/// The fixed key window: issued now, expiring exactly thirty days later.
pub open spec fn key_window_end(now: int) -> int {
    now + CONTROLLER_KEY_TTL_SECONDS * MICROS_PER_SECOND
}

/// Place a new slot next to the current active set: the lowest free index
/// and a fresh fixed window, or `SlotLimit` with the active summaries when
/// all three indices are taken.
pub fn plan_slot_creation(active: &[StoredControllerSlot], now: i64) -> (result: Result<
    SlotPlacement,
    ControllerRegistryError,
>)
    requires
        key_window_end(now as int) <= i64::MAX,
    ensures
        match result {
            Ok(placement) => {
                &&& lowest_free_index(active@) == Some(placement.slot_index)
                &&& placement.issued_at == now
                &&& placement.expires_at == key_window_end(now as int)
            },
            Err(ControllerRegistryError::SlotLimit(summaries)) => {
                &&& lowest_free_index(active@) is None
                &&& summaries@.len() == active@.len()
                &&& forall|i: int| 0 <= i < active@.len() ==> #[trigger] summaries@[i] == summary_of(active@[i])
            },
            Err(_) => false,
        },
{
    match lowest_free_slot_index(active) {
        Some(slot_index) => Ok(
            SlotPlacement {
                slot_index,
                issued_at: now,
                expires_at: now + CONTROLLER_KEY_TTL_SECONDS * MICROS_PER_SECOND,
            },
        ),
        None => {
            let mut summaries: Vec<ControllerSlotSummary> = Vec::new();
            let mut i: usize = 0;
            while i < active.len()
                invariant
                    i <= active@.len(),
                    summaries@.len() == i,
                    forall|j: int| 0 <= j < i ==> #[trigger] summaries@[j] == summary_of(active@[j]),
                decreases active@.len() - i,
            {
                summaries.push(active[i].summary());
                i = i + 1;
            }
            Err(ControllerRegistryError::SlotLimit(summaries))
        },
    }
}

/// Rotation refuses a revoked slot and a key already held by another slot.
pub fn check_rotation(current: &StoredControllerSlot, other_slots_with_kid: i64) -> (result: Result<
    (),
    ControllerRegistryError,
>)
    ensures
        current.status == ControllerSlotStatus::Revoked ==> result matches Err(
            ControllerRegistryError::AlreadyRevoked,
        ),
        current.status == ControllerSlotStatus::Active && other_slots_with_kid > 0 ==> result matches Err(
            ControllerRegistryError::DuplicateKid,
        ),
        current.status == ControllerSlotStatus::Active && other_slots_with_kid <= 0 ==> result is Ok,
{
    if current.status == ControllerSlotStatus::Revoked {
        return Err(ControllerRegistryError::AlreadyRevoked);
    }
    if other_slots_with_kid > 0 {
        return Err(ControllerRegistryError::DuplicateKid);
    }
    Ok(())
}

/// Revocation is terminal: a second revoke is refused.
pub fn check_revocation(current: &StoredControllerSlot) -> (result: Result<(), ControllerRegistryError>)
    ensures
        current.status == ControllerSlotStatus::Revoked ==> result matches Err(
            ControllerRegistryError::AlreadyRevoked,
        ),
        current.status == ControllerSlotStatus::Active ==> result is Ok,
{
    if current.status == ControllerSlotStatus::Revoked {
        return Err(ControllerRegistryError::AlreadyRevoked);
    }
    Ok(())
}

/// The slot after a revocation at `now`.
pub open spec fn revoked_slot(slot: StoredControllerSlot, now: i64) -> StoredControllerSlot {
    StoredControllerSlot {
        status: ControllerSlotStatus::Revoked,
        revoked_at: Some(now),
        updated_at: now,
        ..slot
    }
}

/// Revocation is terminal: once revoked a slot never admits again, and both
/// a second revocation and a rotation of it are refused.
pub proof fn lemma_revocation_is_terminal(slot: StoredControllerSlot, now: i64, later: i64)
    ensures
        !slot_admits(revoked_slot(slot, now), later),
        revoked_slot(slot, now).status == ControllerSlotStatus::Revoked,
{
}

/// A placed key admits exactly until its fixed thirty-day window ends.
pub proof fn lemma_placed_key_window(placement: SlotPlacement, slot: StoredControllerSlot, at: i64)
    requires
        placement.expires_at == key_window_end(placement.issued_at as int),
        slot.status == ControllerSlotStatus::Active,
        slot.expires_at == placement.expires_at,
    ensures
        slot_admits(slot, at) <==> at < placement.issued_at + CONTROLLER_KEY_TTL_SECONDS * MICROS_PER_SECOND,
{
}

} // verus!

verus! {

/// A byte of unpadded base64url text: ASCII letter, digit, `-` or `_`.
pub open spec fn is_kid_byte(byte: u8) -> bool {
    (65 <= byte && byte <= 90) || (97 <= byte && byte <= 122) || (48 <= byte && byte <= 57)
        || byte == 45 || byte == 95
}

/// The shape of a key id: 43 bytes of the URL-safe base64 alphabet.
pub open spec fn is_kid_shape(bytes: Seq<u8>) -> bool {
    bytes.len() == 43 && forall|i: int| 0 <= i < bytes.len() ==> is_kid_byte(#[trigger] bytes[i])
}

fn invalid_identity(reason: &str) -> (error: ControllerRegistryError)
    ensures
        error matches ControllerRegistryError::InvalidIdentity(text) && text@ == reason@,
{
    ControllerRegistryError::InvalidIdentity(reason.to_owned())
}

/// A key id must be the unpadded base64url form of a SHA-256 digest.
pub fn validate_kid(value: &str) -> (result: Result<(), ControllerRegistryError>)
    ensures
        result is Ok <==> is_kid_shape(value.spec_bytes()),
        result is Err ==> (result matches Err(ControllerRegistryError::InvalidIdentity(text)) && text@
            == "kid must be unpadded base64url SHA-256 of the public key"@),
{
    let bytes = value.as_bytes();
    let mut shaped = bytes.len() == 43;
    let mut i: usize = 0;
    while shaped && i < bytes.len()
        invariant
            bytes@ == value.spec_bytes(),
            i <= bytes@.len(),
            shaped ==> bytes@.len() == 43,
            shaped ==> forall|j: int| 0 <= j < i ==> is_kid_byte(#[trigger] bytes@[j]),
            !shaped ==> !is_kid_shape(bytes@),
        decreases bytes@.len() - i,
    {
        let byte = bytes[i];
        if !((65 <= byte && byte <= 90) || (97 <= byte && byte <= 122) || (48 <= byte && byte <= 57)
            || byte == 45 || byte == 95) {
            shaped = false;
        }
        i = i + 1;
    }
    if !shaped {
        return Err(invalid_identity("kid must be unpadded base64url SHA-256 of the public key"));
    }
    Ok(())
}

/// A controller label must be 1 to 128 bytes of text without control characters.
pub open spec fn is_valid_label(value: &str) -> bool {
    &&& value@.len() > 0
    &&& value.spec_bytes().len() <= 128
    &&& forall|i: int| 0 <= i < value@.len() ==> !is_control_char(#[trigger] value@[i])
}

pub fn validate_label(value: &str) -> (result: Result<(), ControllerRegistryError>)
    ensures
        result is Ok <==> is_valid_label(value),
        result is Err ==> (result matches Err(ControllerRegistryError::InvalidIdentity(text)) && text@
            == "controller label must be 1..=128 bounded text"@),
{
    if value.is_empty() || value.as_bytes().len() > 128 || contains_control(value) {
        return Err(invalid_identity("controller label must be 1..=128 bounded text"));
    }
    Ok(())
}

/// The key id that binds to `public_key`.
pub open spec fn kid_of(public_key: Seq<u8>) -> Seq<char> {
    base64url_nopad_of(sha256_of(public_key))
}

/// Registry self-consistency: `kid` must equal base64url(SHA-256(key)).
pub fn validate_kid_binding(kid: &str, public_key: &[u8; 32]) -> (result: Result<(), ControllerRegistryError>)
    ensures
        result is Ok <==> kid@ == kid_of(public_key@),
        result is Err ==> (result matches Err(ControllerRegistryError::InvalidIdentity(text)) && text@
            == "kid does not match the controller public key material"@),
{
    let expected = key_id_for_public_key(public_key.as_slice());
    if !text_equals(kid, expected.as_str()) {
        return Err(invalid_identity("kid does not match the controller public key material"));
    }
    Ok(())
}

/// Input checks shared by creation and rotation.  `deployment_id_valid` is
/// the operator protocol's file-safe identifier verdict on the deployment id.
pub open spec fn slot_input_valid(deployment_id_valid: bool, label: &str, kid: &str, public_key: Seq<u8>) -> bool {
    &&& deployment_id_valid
    &&& is_valid_label(label)
    &&& is_kid_shape(kid.spec_bytes())
    &&& kid@ == kid_of(public_key)
}

/// The reason the first failing input check gives, in checking order;
/// `None` when every check passes.
pub open spec fn slot_input_failure(deployment_id_valid: bool, label: &str, kid: &str, public_key: Seq<u8>) -> Option<
    Seq<char>,
> {
    if !deployment_id_valid {
        Some("deployment_id is not a valid file-safe identifier"@)
    } else if !is_valid_label(label) {
        Some("controller label must be 1..=128 bounded text"@)
    } else if !is_kid_shape(kid.spec_bytes()) {
        Some("kid must be unpadded base64url SHA-256 of the public key"@)
    } else if kid@ != kid_of(public_key) {
        Some("kid does not match the controller public key material"@)
    } else {
        None
    }
}

pub fn validate_slot_input(
    deployment_id_valid: bool,
    label: &str,
    kid: &str,
    public_key: &[u8; 32],
) -> (result: Result<(), ControllerRegistryError>)
    ensures
        result is Ok <==> slot_input_valid(deployment_id_valid, label, kid, public_key@),
        match slot_input_failure(deployment_id_valid, label, kid, public_key@) {
            Some(reason) => result matches Err(ControllerRegistryError::InvalidIdentity(text)) && text@ == reason,
            None => result is Ok,
        },
{
    if !deployment_id_valid {
        return Err(invalid_identity("deployment_id is not a valid file-safe identifier"));
    }
    match validate_label(label) {
        Ok(()) => {},
        Err(error) => return Err(error),
    }
    match validate_kid(kid) {
        Ok(()) => {},
        Err(error) => return Err(error),
    }
    validate_kid_binding(kid, public_key)
}

/// The key id computed from a public key has the key-id shape and binds to
/// that key, so an honestly derived kid always passes both checks.
pub proof fn lemma_derived_kid_is_valid(public_key: Seq<u8>, kid: &str)
    requires
        public_key.len() == 32,
        kid@ == kid_of(public_key),
        kid@.len() == 43,
        forall|i: int| 0 <= i < kid@.len() ==> crate::digest::is_base64url_char(#[trigger] kid@[i]),
    ensures
        is_kid_shape(kid.spec_bytes()),
{
    assert forall|i: int| 0 <= i < kid@.len() implies '\0' <= #[trigger] kid@[i] <= '\u{7f}' by {
        assert(crate::digest::is_base64url_char(kid@[i]));
    }
    assert(vstd::utf8::is_ascii_chars(kid@));
    vstd::utf8::is_ascii_chars_encode_utf8(kid@);
    assert forall|i: int| 0 <= i < kid.spec_bytes().len() implies is_kid_byte(
        #[trigger] kid.spec_bytes()[i],
    ) by {
        assert(crate::digest::is_base64url_char(kid@[i]));
        assert(kid@[i] as u8 == kid.spec_bytes()[i]);
    }
}

/// Why a commit that consumes an approval failed.
#[derive(Debug)]
pub enum CommitWithApprovalError {
    Approval(IdentityApprovalError),
    Mutation(ControllerRegistryError),
    Transport(String),
}

/// A rotation can only be committed against the deployment the approval
/// was requested for.
pub fn check_rotation_deployment(rotation: &RotateControllerKey, expected_deployment_id: &str) -> (result: Result<
    (),
    CommitWithApprovalError,
>)
    ensures
        result is Ok <==> rotation.deployment_id@ == expected_deployment_id@,
        result is Err ==> result matches Err(
            CommitWithApprovalError::Approval(IdentityApprovalError::ActionMismatch),
        ),
{
    if !text_equals(rotation.deployment_id.as_str(), expected_deployment_id) {
        return Err(CommitWithApprovalError::Approval(IdentityApprovalError::ActionMismatch));
    }
    Ok(())
}

/// BLAKE3 digest under which an approval token is stored and looked up.
pub fn approval_token_digest(token: &str) -> (digest: String)
    ensures
        digest@ == lower_hex_of(blake3_of(token.spec_bytes())),
        digest@.len() == 64,
{
    blake3_hex(token)
}

/// A freshly issued approval before it is stored: the plaintext token exists
/// only here and in the administrator's response.
#[derive(Clone, Debug)]
pub struct IssuedIdentityApproval {
    pub approval_id: u128,
    pub action: ControllerIdentityAction,
    pub action_sha256: String,
    pub token: String,
    pub expires_at: i64,
}

/// The end of an approval's fixed window.
pub open spec fn approval_window_end(now: int) -> int {
    now + IDENTITY_APPROVAL_TTL_SECONDS * MICROS_PER_SECOND
}

/// Prepare one single-use approval bound to `(deployment, action, digest)`:
/// a random 32-byte token in unpadded base64url, its BLAKE3 digest for
/// storage, and a fixed ten-minute window.  `deployment_id_valid` is the
/// operator protocol's verdict on the deployment id.
pub fn prepare_identity_approval(
    deployment_id_valid: bool,
    action: ControllerIdentityAction,
    action_sha256: &str,
    now: i64,
) -> (result: Result<(IssuedIdentityApproval, String), IdentityApprovalError>)
    requires
        approval_window_end(now as int) <= i64::MAX,
    ensures
        !deployment_id_valid ==> (result matches Err(IdentityApprovalError::Transport(text)) && text@
            == "approval deployment_id is invalid"@),
        deployment_id_valid && !is_lower_sha256_hex_bytes(action_sha256.spec_bytes()) ==> (result matches Err(
            IdentityApprovalError::Transport(text),
        ) && text@ == "approval action digest is not lowercase sha256 hex"@),
        deployment_id_valid && is_lower_sha256_hex_bytes(action_sha256.spec_bytes()) ==> result is Ok,
        match result {
            Ok((issued, token_hash)) => {
                &&& issued.action == action
                &&& issued.action_sha256@ == action_sha256@
                &&& issued.expires_at == approval_window_end(now as int)
                &&& issued.token@.len() == 43
                &&& exists|raw: Seq<u8>| raw.len() == 32 && issued.token@ == #[trigger] base64url_nopad_of(raw)
                &&& token_hash@ == lower_hex_of(blake3_of(vstd::utf8::encode_utf8(issued.token@)))
            },
            Err(_) => true,
        },
{
    if !deployment_id_valid {
        return Err(IdentityApprovalError::Transport("approval deployment_id is invalid".to_owned()));
    }
    if !is_lower_sha256_hex(action_sha256) {
        return Err(
            IdentityApprovalError::Transport(
                "approval action digest is not lowercase sha256 hex".to_owned(),
            ),
        );
    }
    let raw = crate::entropy::random_bytes_32();
    let token = base64url_nopad(raw.as_slice());
    let token_hash = approval_token_digest(token.as_str());
    let approval_id = crate::entropy::new_uuid_v7();
    let issued = IssuedIdentityApproval {
        approval_id,
        action,
        action_sha256: action_sha256.to_owned(),
        token,
        expires_at: now + IDENTITY_APPROVAL_TTL_SECONDS * MICROS_PER_SECOND,
    };
    Ok((issued, token_hash))
}

/// The text an approval failure displays.
pub open spec fn identity_approval_message(error: IdentityApprovalError) -> Seq<char> {
    match error {
        IdentityApprovalError::UnknownToken => "unknown approval token"@,
        IdentityApprovalError::Replayed => "approval token already consumed"@,
        IdentityApprovalError::Expired => "approval token expired"@,
        IdentityApprovalError::ActionMismatch => "approval does not cover this action"@,
        IdentityApprovalError::Transport(message) => message@,
    }
}

/// The text a registry failure displays.
pub open spec fn registry_error_message(error: ControllerRegistryError) -> Seq<char> {
    match error {
        ControllerRegistryError::SlotLimit(_) => "CONTROLLER_SLOT_LIMIT"@,
        ControllerRegistryError::UnknownController => "unknown controller slot"@,
        ControllerRegistryError::AlreadyRevoked => "controller slot already revoked"@,
        ControllerRegistryError::DuplicateKid => "controller kid already registered"@,
        ControllerRegistryError::InvalidIdentity(reason) => reason@,
        ControllerRegistryError::Transport(message) => message@,
    }
}

/// The text a failed commit displays: that of the failure it carries.
pub open spec fn commit_error_message(error: CommitWithApprovalError) -> Seq<char> {
    match error {
        CommitWithApprovalError::Approval(inner) => identity_approval_message(inner),
        CommitWithApprovalError::Mutation(inner) => registry_error_message(inner),
        CommitWithApprovalError::Transport(message) => message@,
    }
}

impl IdentityApprovalError {
    /// The failure as displayed to operators.
    pub fn message(&self) -> (text: String)
        ensures
            text@ == identity_approval_message(*self),
    {
        match self {
            IdentityApprovalError::UnknownToken => "unknown approval token".to_owned(),
            IdentityApprovalError::Replayed => "approval token already consumed".to_owned(),
            IdentityApprovalError::Expired => "approval token expired".to_owned(),
            IdentityApprovalError::ActionMismatch => "approval does not cover this action".to_owned(),
            IdentityApprovalError::Transport(message) => message.clone(),
        }
    }
}

impl ControllerRegistryError {
    /// The failure as displayed to operators.
    pub fn message(&self) -> (text: String)
        ensures
            text@ == registry_error_message(*self),
    {
        match self {
            ControllerRegistryError::SlotLimit(_) => "CONTROLLER_SLOT_LIMIT".to_owned(),
            ControllerRegistryError::UnknownController => "unknown controller slot".to_owned(),
            ControllerRegistryError::AlreadyRevoked => "controller slot already revoked".to_owned(),
            ControllerRegistryError::DuplicateKid => "controller kid already registered".to_owned(),
            ControllerRegistryError::InvalidIdentity(reason) => reason.clone(),
            ControllerRegistryError::Transport(message) => message.clone(),
        }
    }
}

impl CommitWithApprovalError {
    /// The failure as displayed to operators.
    pub fn message(&self) -> (text: String)
        ensures
            text@ == commit_error_message(*self),
    {
        match self {
            CommitWithApprovalError::Approval(inner) => inner.message(),
            CommitWithApprovalError::Mutation(inner) => inner.message(),
            CommitWithApprovalError::Transport(message) => message.clone(),
        }
    }
}

} // verus!
