//! SCIM provisioning: how replacements and patches change a user, which
//! activity transition a change reports, deactivation, and the paging of
//! security events for a receiver.

use vstd::prelude::*;

use crate::error::{RepositoryError, StoreFailure, StoreFailureKind};

verus! {

/// The SCIM-managed attributes of a user.
#[derive(Clone, Debug, PartialEq, Eq)]
pub struct ScimUserState {
    pub user_name: String,
    pub email: String,
    pub active: bool,
    pub display_name: Option<String>,
    pub given_name: Option<String>,
    pub family_name: Option<String>,
}

/// A SCIM PATCH: each present attribute replaces the stored one.
#[derive(Clone, Debug, PartialEq, Eq)]
pub struct ScimPatch {
    pub user_name: Option<String>,
    pub email: Option<String>,
    pub active: Option<bool>,
    pub display_name: Option<String>,
    pub given_name: Option<String>,
    pub family_name: Option<String>,
}

pub open spec fn or_keep<T>(value: Option<T>, current: T) -> T {
    match value {
        Some(v) => v,
        None => current,
    }
}

pub open spec fn or_keep_optional<T>(value: Option<T>, current: Option<T>) -> Option<T> {
    match value {
        Some(v) => Some(v),
        None => current,
    }
}

/// The user after a patch: present attributes replace, absent ones stay.
pub open spec fn patched(current: ScimUserState, patch: ScimPatch) -> ScimUserState {
    ScimUserState {
        user_name: or_keep(patch.user_name, current.user_name),
        email: or_keep(patch.email, current.email),
        active: or_keep(patch.active, current.active),
        display_name: or_keep_optional(patch.display_name, current.display_name),
        given_name: or_keep_optional(patch.given_name, current.given_name),
        family_name: or_keep_optional(patch.family_name, current.family_name),
    }
}

pub fn apply_scim_patch(current: ScimUserState, patch: ScimPatch) -> (next: ScimUserState)
    ensures
        next == patched(current, patch),
{
    ScimUserState {
        user_name: match patch.user_name {
            Some(v) => v,
            None => current.user_name,
        },
        email: match patch.email {
            Some(v) => v,
            None => current.email,
        },
        active: match patch.active {
            Some(v) => v,
            None => current.active,
        },
        display_name: match patch.display_name {
            Some(v) => Some(v),
            None => current.display_name,
        },
        given_name: match patch.given_name {
            Some(v) => Some(v),
            None => current.given_name,
        },
        family_name: match patch.family_name {
            Some(v) => Some(v),
            None => current.family_name,
        },
    }
}

/// An empty patch changes nothing, and applying a patch twice is the same
/// as applying it once.
pub proof fn lemma_patch_laws(current: ScimUserState, patch: ScimPatch)
    ensures
        patched(
            current,
            ScimPatch {
                user_name: None,
                email: None,
                active: None,
                display_name: None,
                given_name: None,
                family_name: None,
            },
        ) == current,
        patched(patched(current, patch), patch) == patched(current, patch),
{
}

/// Every attribute a patch carries replaces the stored one, and every
/// attribute it leaves out keeps its stored value.
pub proof fn lemma_patch_replaces_present_attributes(current: ScimUserState, patch: ScimPatch)
    ensures
        patch.user_name matches Some(v) ==> patched(current, patch).user_name == v,
        patch.user_name is None ==> patched(current, patch).user_name == current.user_name,
        patch.email matches Some(v) ==> patched(current, patch).email == v,
        patch.email is None ==> patched(current, patch).email == current.email,
        patch.active matches Some(v) ==> patched(current, patch).active == v,
        patch.active is None ==> patched(current, patch).active == current.active,
        patch.display_name is Some ==> patched(current, patch).display_name == patch.display_name,
        patch.display_name is None ==> patched(current, patch).display_name == current.display_name,
        patch.given_name is Some ==> patched(current, patch).given_name == patch.given_name,
        patch.given_name is None ==> patched(current, patch).given_name == current.given_name,
        patch.family_name is Some ==> patched(current, patch).family_name == patch.family_name,
        patch.family_name is None ==> patched(current, patch).family_name == current.family_name,
{
}

/// The activity transition a change reports: the new activity when it
/// differs from the old one.
pub fn active_transition(before: bool, after: bool) -> (transition: Option<bool>)
    ensures
        before != after ==> transition == Some(after),
        before == after ==> transition is None,
{
    if before != after {
        Some(after)
    } else {
        None
    }
}

/// A change that leaves the user inactive revokes the user's tokens.
pub fn revokes_tokens(active_after: bool) -> (revoke: bool)
    ensures
        revoke == !active_after,
{
    !active_after
}

/// What deactivating a user does, given the locked user (`None`: no such
/// user in the tenant): report absent, report already inactive, or write.
#[derive(Clone, Copy, Debug, PartialEq, Eq, Structural)]
pub enum DeactivationStep {
    Absent,
    AlreadyInactive,
    Deactivate,
}

pub fn deactivation_step(current_active: Option<bool>) -> (step: DeactivationStep)
    ensures
        current_active is None ==> step == DeactivationStep::Absent,
        current_active == Some(false) ==> step == DeactivationStep::AlreadyInactive,
        current_active == Some(true) ==> step == DeactivationStep::Deactivate,
{
    match current_active {
        None => DeactivationStep::Absent,
        Some(false) => DeactivationStep::AlreadyInactive,
        Some(true) => DeactivationStep::Deactivate,
    }
}

/// The answer of a deactivation: absent users report `false`, already
/// inactive ones `true`, and a write reports whether it changed the row
/// (only then are tokens revoked and an event recorded).
pub fn deactivation_result(step: DeactivationStep, changed: usize) -> (deactivated: bool)
    ensures
        step == DeactivationStep::Absent ==> !deactivated,
        step == DeactivationStep::AlreadyInactive ==> deactivated,
        step == DeactivationStep::Deactivate ==> deactivated == (changed > 0),
{
    match step {
        DeactivationStep::Absent => false,
        DeactivationStep::AlreadyInactive => true,
        DeactivationStep::Deactivate => changed > 0,
    }
}

/// How a failed SCIM store operation is reported.
pub fn scim_store_error(failure: StoreFailure) -> (error: RepositoryError)
    ensures
        failure.kind == StoreFailureKind::NotFound ==> error == RepositoryError::NotFound,
        failure.kind == StoreFailureKind::UniqueViolation ==> error == RepositoryError::Conflict,
        failure.kind != StoreFailureKind::NotFound && failure.kind != StoreFailureKind::UniqueViolation
            ==> error == RepositoryError::Unexpected(failure.message),
{
    match failure.kind {
        StoreFailureKind::NotFound => RepositoryError::NotFound,
        StoreFailureKind::UniqueViolation => RepositoryError::Conflict,
        _ => RepositoryError::Unexpected(failure.message),
    }
}

/// How many undelivered events to read for a page of `max_events`: one
/// more, to learn whether more remain.
pub fn event_fetch_limit(max_events: u16) -> (limit: i64)
    ensures
        limit == max_events + 1,
{
    max_events as i64 + 1
}

/// A page of events from what was read: the first `max_events`, and
/// whether more are available beyond them.
pub fn event_page<T>(rows: Vec<T>, max_events: u16) -> (page: (Vec<T>, bool))
    ensures
        page.1 == (rows@.len() > max_events),
        page.0@ == rows@.take(if rows@.len() > max_events { max_events as int } else { rows@.len() as int }),
{
    let more_available = rows.len() > max_events as usize;
    let mut rows = rows;
    if more_available {
        rows.truncate(max_events as usize);
    }
    (rows, more_available)
}

/// What a receiver reports about a delivered event.
#[derive(Clone, Copy, Debug, PartialEq, Eq, Structural)]
pub enum Disposition {
    Acknowledged,
    Error,
}

/// An error a receiver reports for an event: its code and description.
#[derive(Clone, Debug, PartialEq, Eq)]
pub struct SetErrorReport {
    pub event_id: u128,
    pub code: String,
    pub description: String,
}

/// One receipt to record before the next page is read.
#[derive(Clone, Debug, PartialEq, Eq)]
pub struct DispositionWrite {
    pub event_id: u128,
    pub disposition: Disposition,
    /// The reported error code and description; `None` for an acknowledgement.
    pub error: Option<(String, String)>,
}

/// The receipt recorded for an acknowledged event.
pub open spec fn ack_write(event_id: u128) -> DispositionWrite {
    DispositionWrite { event_id, disposition: Disposition::Acknowledged, error: None }
}

/// The receipt recorded for an event reported in error.
pub open spec fn error_write(report: SetErrorReport) -> DispositionWrite {
    DispositionWrite {
        event_id: report.event_id,
        disposition: Disposition::Error,
        error: Some((report.code, report.description)),
    }
}

/// The receipts a poll records, in order: every acknowledgement first,
/// then every reported error, each in the order the receiver sent them.
pub fn disposition_writes(ack: &[u128], set_errors: &[SetErrorReport]) -> (writes: Vec<DispositionWrite>)
    ensures
        writes@.len() == ack@.len() + set_errors@.len(),
        forall|i: int| 0 <= i < ack@.len() ==> writes@[i] == ack_write(#[trigger] ack@[i]),
        forall|j: int|
            0 <= j < set_errors@.len() ==> writes@[ack@.len() + j] == error_write(#[trigger] set_errors@[j]),
{
    let mut writes: Vec<DispositionWrite> = Vec::new();
    let mut i: usize = 0;
    while i < ack.len()
        invariant
            i <= ack@.len(),
            writes@.len() == i,
            forall|k: int| 0 <= k < i ==> writes@[k] == ack_write(#[trigger] ack@[k]),
        decreases ack@.len() - i,
    {
        writes.push(DispositionWrite { event_id: ack[i], disposition: Disposition::Acknowledged, error: None });
        i = i + 1;
    }
    let mut j: usize = 0;
    while j < set_errors.len()
        invariant
            j <= set_errors@.len(),
            writes@.len() == ack@.len() + j,
            forall|k: int| 0 <= k < ack@.len() ==> writes@[k] == ack_write(#[trigger] ack@[k]),
            forall|k: int| 0 <= k < j ==> writes@[ack@.len() + k] == error_write(#[trigger] set_errors@[k]),
        decreases set_errors@.len() - j,
    {
        let report = &set_errors[j];
        writes.push(
            DispositionWrite {
                event_id: report.event_id,
                disposition: Disposition::Error,
                error: Some((report.code.clone(), report.description.clone())),
            },
        );
        j = j + 1;
    }
    writes
}

} // verus!
