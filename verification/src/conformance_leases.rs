//! Conformance-test leases: request validation, single-match lookups, the
//! revocation retry step and the short-lived CIBA decision claim.

use vstd::prelude::*;
use vstd::string::StringSliceAdditionalSpecFns;

use crate::error::{consistency, RepositoryError, StoreFailure, StoreFailureKind};
use crate::text::{is_lower_sha256_hex, is_lower_sha256_hex_bytes, string_from_chars, text_equals, trim_chars, trimmed_chars};
use crate::time::{chrono_add_seconds, chrono_shifted_micros, earliest, unix_seconds, MICROS_PER_SECOND};

verus! {

pub const MIN_CONFORMANCE_LEASE_SECONDS: i64 = 60;
pub const MAX_CONFORMANCE_LEASE_SECONDS: i64 = 86_400;
/// The only profile whose leases may carry token bindings.
pub const LEASED_DYNAMIC_REGISTRATION_PROFILE: &'static str = "oidc-fapi-ciba";
pub const CIBA_DECISION_CLAIM_SECONDS: i64 = 30;
/// One immediate attempt plus 120 quarter-second waits.
pub const CIBA_REVOKE_WAIT_ATTEMPTS: usize = 121;
pub const CIBA_REVOKE_WAIT_MILLIS: u64 = 250;

/// Optional token digests a lease may be bound to.
#[derive(Clone, Copy, Debug)]
pub struct ConformanceLeaseTokenDigests<'a> {
    pub dynamic_registration_initial_access_token_sha256: Option<&'a str>,
    pub ciba_automated_decision_token_sha256: Option<&'a str>,
}

impl<'a> Default for ConformanceLeaseTokenDigests<'a> {
    fn default() -> (digests: Self)
        ensures
            digests.dynamic_registration_initial_access_token_sha256 is None,
            digests.ciba_automated_decision_token_sha256 is None,
    {
        ConformanceLeaseTokenDigests {
            dynamic_registration_initial_access_token_sha256: None,
            ciba_automated_decision_token_sha256: None,
        }
    }
}

/// Rows touched by one expired-lease cleanup run.
#[derive(Clone, Copy, Debug, PartialEq, Eq, Structural)]
pub struct ConformanceLeaseCleanup {
    pub cleaned_leases: i32,
    pub deleted_clients: i32,
}

/// A validated lease request, ready to insert.
#[derive(Clone, Debug)]
pub struct ConformanceLeasePlan {
    pub profile: String,
    pub expires_at: i64,
}

pub open spec fn optional_digest_valid(digest: Option<&str>) -> bool {
    match digest {
        None => true,
        Some(d) => is_lower_sha256_hex_bytes(d.spec_bytes()),
    }
}

/// The first condition a lease request fails, in the order they are
/// checked, as the message it is refused with; `None` when it meets them
/// all.
pub open spec fn lease_request_failure(
    profile: &str,
    material_sha256: &str,
    digests: ConformanceLeaseTokenDigests,
    ttl_seconds: i64,
) -> Option<Seq<char>> {
    let trimmed = trim_chars(profile@);
    if !(MIN_CONFORMANCE_LEASE_SECONDS <= ttl_seconds <= MAX_CONFORMANCE_LEASE_SECONDS) {
        Some("conformance lease ttl_seconds must be between 60 and 86400"@)
    } else if !(trimmed.len() > 0 && vstd::utf8::encode_utf8(trimmed).len() <= 64) {
        Some("conformance lease profile must contain 1 to 64 bytes"@)
    } else if !is_lower_sha256_hex_bytes(material_sha256.spec_bytes()) {
        Some("conformance lease material_sha256 must be a lowercase SHA-256 digest"@)
    } else if !optional_digest_valid(digests.dynamic_registration_initial_access_token_sha256) {
        Some(
            "conformance lease dynamic registration initial access token must be a lowercase SHA-256 digest"@,
        )
    } else if !optional_digest_valid(digests.ciba_automated_decision_token_sha256) {
        Some("conformance lease CIBA automated decision token must be a lowercase SHA-256 digest"@)
    } else if (digests.dynamic_registration_initial_access_token_sha256 is Some
        || digests.ciba_automated_decision_token_sha256 is Some) && trimmed
        != LEASED_DYNAMIC_REGISTRATION_PROFILE@ {
        Some("conformance lease token bindings are only valid for the oidc-fapi-ciba profile"@)
    } else {
        None
    }
}

fn digest_ok(digest: Option<&str>) -> (ok: bool)
    ensures
        ok == optional_digest_valid(digest),
{
    match digest {
        None => true,
        Some(d) => is_lower_sha256_hex(d),
    }
}

/// Validate a lease request: TTL bounds, a 1..=64-byte trimmed profile,
/// lowercase SHA-256 digests, token bindings only for the leased profile,
/// and a representable expiry.  On success the plan holds the trimmed
/// profile and `now + ttl`.
pub fn validate_lease_request(
    profile: &str,
    material_sha256: &str,
    digests: ConformanceLeaseTokenDigests,
    ttl_seconds: i64,
    now: i64,
) -> (result: Result<ConformanceLeasePlan, RepositoryError>)
    ensures
        match lease_request_failure(profile, material_sha256, digests, ttl_seconds) {
            Some(message) => result matches Err(RepositoryError::Consistency(text)) && text@ == message,
            None => match chrono_shifted_micros(now, ttl_seconds) {
                Some(expires_at) => result matches Ok(plan) && plan.profile@ == trim_chars(profile@)
                    && plan.expires_at == expires_at,
                None => result matches Err(RepositoryError::Consistency(text)) && text@
                    == "conformance lease ttl overflow"@,
            },
        },
{
    if !(MIN_CONFORMANCE_LEASE_SECONDS <= ttl_seconds && ttl_seconds <= MAX_CONFORMANCE_LEASE_SECONDS) {
        return Err(consistency("conformance lease ttl_seconds must be between 60 and 86400"));
    }
    let trimmed = trimmed_chars(profile);
    let trimmed_profile = string_from_chars(trimmed.as_slice());
    if trimmed.len() == 0 || trimmed_profile.as_str().as_bytes().len() > 64 {
        return Err(consistency("conformance lease profile must contain 1 to 64 bytes"));
    }
    if !is_lower_sha256_hex(material_sha256) {
        return Err(
            consistency("conformance lease material_sha256 must be a lowercase SHA-256 digest"),
        );
    }
    if !digest_ok(digests.dynamic_registration_initial_access_token_sha256) {
        return Err(
            consistency(
                "conformance lease dynamic registration initial access token must be a lowercase SHA-256 digest",
            ),
        );
    }
    if !digest_ok(digests.ciba_automated_decision_token_sha256) {
        return Err(
            consistency(
                "conformance lease CIBA automated decision token must be a lowercase SHA-256 digest",
            ),
        );
    }
    if (digests.dynamic_registration_initial_access_token_sha256.is_some()
        || digests.ciba_automated_decision_token_sha256.is_some()) && !text_equals(
        trimmed_profile.as_str(),
        LEASED_DYNAMIC_REGISTRATION_PROFILE,
    ) {
        return Err(
            consistency(
                "conformance lease token bindings are only valid for the oidc-fapi-ciba profile",
            ),
        );
    }
    match chrono_add_seconds(now, ttl_seconds) {
        None => Err(consistency("conformance lease ttl overflow")),
        Some(expires_at) => Ok(ConformanceLeasePlan { profile: trimmed_profile, expires_at }),
    }
}

/// Credential-bound lookups are only defined for the leased profile.
pub fn require_leased_profile(profile: &str) -> (result: Result<(), RepositoryError>)
    ensures
        result is Ok <==> profile@ == LEASED_DYNAMIC_REGISTRATION_PROFILE@,
        result is Err ==> (result matches Err(RepositoryError::Consistency(text)) && text@
            == "conformance lease credential lookup is only valid for the oidc-fapi-ciba profile"@),
{
    if !text_equals(profile, LEASED_DYNAMIC_REGISTRATION_PROFILE) {
        return Err(
            consistency(
                "conformance lease credential lookup is only valid for the oidc-fapi-ciba profile",
            ),
        );
    }
    Ok(())
}

/// Resolve at most one effective lease: none, exactly one, or a corrupt
/// capability boundary that fails closed.
pub fn single_lease_match(matches: &[u128]) -> (result: Result<Option<u128>, RepositoryError>)
    ensures
        matches@.len() == 0 ==> result == Ok::<Option<u128>, RepositoryError>(None),
        matches@.len() == 1 ==> result == Ok::<Option<u128>, RepositoryError>(Some(matches@[0])),
        matches@.len() > 1 ==> result matches Err(RepositoryError::Consistency(_)),
{
    if matches.len() == 0 {
        Ok(None)
    } else if matches.len() == 1 {
        Ok(Some(matches[0]))
    } else {
        Err(consistency("multiple active conformance leases matched one credential"))
    }
}

/// What one revocation attempt observed and what to do next.
#[derive(Clone, Copy, Debug, PartialEq, Eq, Structural)]
pub enum LeaseRevokeStep {
    /// The lease was revoked; this many clients were deactivated with it.
    Revoked(i64),
    /// No such lease for this tenant.
    NotFound,
    /// No live decision claim blocks the lease: try the update again now.
    RetryNow,
    /// A live decision claim blocks the lease: wait, then try again.
    Wait,
}

/// Decide after one revocation statement.  `claim_expiry` is read only when
/// nothing was revoked: `None` for a missing row, `Some(expiry)` otherwise.
pub fn lease_revoke_step(
    found: bool,
    deactivated_clients: i64,
    claim_expiry: Option<Option<i64>>,
    now: i64,
) -> (step: LeaseRevokeStep)
    ensures
        found ==> step == LeaseRevokeStep::Revoked(deactivated_clients),
        !found && claim_expiry is None ==> step == LeaseRevokeStep::NotFound,
        !found && claim_expiry == Some(None::<i64>) ==> step == LeaseRevokeStep::RetryNow,
        forall|t: i64|
            !found && claim_expiry == Some(Some(t)) ==> step == (if t <= now {
                LeaseRevokeStep::RetryNow
            } else {
                LeaseRevokeStep::Wait
            }),
{
    if found {
        return LeaseRevokeStep::Revoked(deactivated_clients);
    }
    match claim_expiry {
        None => LeaseRevokeStep::NotFound,
        Some(None) => LeaseRevokeStep::RetryNow,
        Some(Some(expiry)) => if expiry <= now {
            LeaseRevokeStep::RetryNow
        } else {
            LeaseRevokeStep::Wait
        },
    }
}

/// Outcome once the revocation attempts are exhausted.
pub fn lease_revoke_exhausted() -> (error: RepositoryError)
    ensures
        error == RepositoryError::Conflict,
{
    RepositoryError::Conflict
}

/// What the revocation loop does after an attempt.
#[derive(Debug, PartialEq, Eq)]
pub enum LeaseRevokeAction {
    /// Stop with this result.
    Return(Result<i64, RepositoryError>),
    /// Make another attempt, after the wait interval when `wait` is set.
    Retry { wait: bool },
    /// The last attempt is spent: after the wait interval when `wait` is
    /// set, stop with [`lease_revoke_exhausted`].
    GiveUp { wait: bool },
}

/// The action after attempt number `attempt` (counting from 0) observed
/// `step`: a revoked or missing lease ends the loop, anything else retries
/// until all `CIBA_REVOKE_WAIT_ATTEMPTS` attempts are spent.
pub open spec fn revoke_action(attempt: int, step: LeaseRevokeStep) -> LeaseRevokeAction {
    match step {
        LeaseRevokeStep::Revoked(n) => LeaseRevokeAction::Return(Ok(n)),
        LeaseRevokeStep::NotFound => LeaseRevokeAction::Return(Err(RepositoryError::NotFound)),
        LeaseRevokeStep::RetryNow => if attempt + 1 < CIBA_REVOKE_WAIT_ATTEMPTS {
            LeaseRevokeAction::Retry { wait: false }
        } else {
            LeaseRevokeAction::GiveUp { wait: false }
        },
        LeaseRevokeStep::Wait => if attempt + 1 < CIBA_REVOKE_WAIT_ATTEMPTS {
            LeaseRevokeAction::Retry { wait: true }
        } else {
            LeaseRevokeAction::GiveUp { wait: true }
        },
    }
}

pub fn lease_revoke_next(attempt: usize, step: LeaseRevokeStep) -> (action: LeaseRevokeAction)
    requires
        attempt < CIBA_REVOKE_WAIT_ATTEMPTS,
    ensures
        action == revoke_action(attempt as int, step),
{
    let last = attempt + 1 >= CIBA_REVOKE_WAIT_ATTEMPTS;
    match step {
        LeaseRevokeStep::Revoked(n) => LeaseRevokeAction::Return(Ok(n)),
        LeaseRevokeStep::NotFound => LeaseRevokeAction::Return(Err(RepositoryError::NotFound)),
        LeaseRevokeStep::RetryNow => if last {
            LeaseRevokeAction::GiveUp { wait: false }
        } else {
            LeaseRevokeAction::Retry { wait: false }
        },
        LeaseRevokeStep::Wait => if last {
            LeaseRevokeAction::GiveUp { wait: true }
        } else {
            LeaseRevokeAction::Retry { wait: true }
        },
    }
}

/// The result of a revocation whose attempts, from number `attempt` on,
/// observed `steps` in order; `None` while the loop has not ended.
pub open spec fn revoke_run(steps: Seq<LeaseRevokeStep>, attempt: int) -> Option<Result<i64, RepositoryError>>
    decreases steps.len(),
{
    if steps.len() == 0 {
        None
    } else {
        match revoke_action(attempt, steps[0]) {
            LeaseRevokeAction::Return(result) => Some(result),
            LeaseRevokeAction::GiveUp { .. } => Some(Err(RepositoryError::Conflict)),
            LeaseRevokeAction::Retry { .. } => revoke_run(steps.drop_first(), attempt + 1),
        }
    }
}

/// Whether an attempt observed the lease still blocked or racing.
pub open spec fn revoke_attempt_pending(step: LeaseRevokeStep) -> bool {
    step == LeaseRevokeStep::RetryNow || step == LeaseRevokeStep::Wait
}

/// A revocation gives up with `Conflict` only after every one of its
/// `CIBA_REVOKE_WAIT_ATTEMPTS` attempts found the lease blocked or racing;
/// it succeeds with the count an attempt reported, and only when every
/// earlier attempt was pending; it reports a missing lease only when an
/// attempt found none.
pub proof fn lemma_revoke_gives_up_only_after_every_attempt(steps: Seq<LeaseRevokeStep>, attempt: int)
    requires
        0 <= attempt < CIBA_REVOKE_WAIT_ATTEMPTS,
    ensures
        revoke_run(steps, attempt) == Some(Err::<i64, RepositoryError>(RepositoryError::Conflict)) ==> {
            &&& steps.len() >= CIBA_REVOKE_WAIT_ATTEMPTS - attempt
            &&& forall|i: int| 0 <= i < CIBA_REVOKE_WAIT_ATTEMPTS - attempt ==> revoke_attempt_pending(#[trigger] steps[i])
        },
        forall|n: i64| revoke_run(steps, attempt) == Some(Ok::<i64, RepositoryError>(n)) ==> exists|i: int|
            0 <= i < steps.len() && i < CIBA_REVOKE_WAIT_ATTEMPTS - attempt && #[trigger] steps[i]
                == LeaseRevokeStep::Revoked(n) && forall|j: int| 0 <= j < i ==> revoke_attempt_pending(#[trigger] steps[j]),
        revoke_run(steps, attempt) == Some(Err::<i64, RepositoryError>(RepositoryError::NotFound)) ==> exists|i: int|
            0 <= i < steps.len() && #[trigger] steps[i] == LeaseRevokeStep::NotFound,
    decreases steps.len(),
{
    if steps.len() > 0 {
        let rest = steps.drop_first();
        if attempt + 1 < CIBA_REVOKE_WAIT_ATTEMPTS {
            lemma_revoke_gives_up_only_after_every_attempt(rest, attempt + 1);
        }
        if revoke_run(steps, attempt) == Some(Err::<i64, RepositoryError>(RepositoryError::Conflict)) {
            assert forall|i: int| 0 <= i < CIBA_REVOKE_WAIT_ATTEMPTS - attempt implies revoke_attempt_pending(
                #[trigger] steps[i],
            ) by {
                if i > 0 {
                    assert(steps[i] == rest[i - 1]);
                }
            }
        }
        assert forall|n: i64| revoke_run(steps, attempt) == Some(Ok::<i64, RepositoryError>(n)) implies exists|i: int|
            0 <= i < steps.len() && i < CIBA_REVOKE_WAIT_ATTEMPTS - attempt && #[trigger] steps[i]
                == LeaseRevokeStep::Revoked(n) && forall|j: int| 0 <= j < i ==> revoke_attempt_pending(#[trigger] steps[j]) by {
            if steps[0] == LeaseRevokeStep::Revoked(n) {
                assert(steps[0] == LeaseRevokeStep::Revoked(n));
            } else {
                let i = choose|i: int|
                    0 <= i < rest.len() && i < CIBA_REVOKE_WAIT_ATTEMPTS - attempt - 1 && #[trigger] rest[i]
                        == LeaseRevokeStep::Revoked(n) && forall|j: int| 0 <= j < i ==> revoke_attempt_pending(#[trigger] rest[j]);
                assert(steps[i + 1] == LeaseRevokeStep::Revoked(n));
                assert forall|j: int| 0 <= j < i + 1 implies revoke_attempt_pending(#[trigger] steps[j]) by {
                    if j > 0 {
                        assert(steps[j] == rest[j - 1]);
                    }
                }
            }
        }
        if revoke_run(steps, attempt) == Some(Err::<i64, RepositoryError>(RepositoryError::NotFound)) {
            if steps[0] != LeaseRevokeStep::NotFound {
                let i = choose|i: int| 0 <= i < rest.len() && #[trigger] rest[i] == LeaseRevokeStep::NotFound;
                assert(steps[i + 1] == LeaseRevokeStep::NotFound);
            }
        }
    }
}

/// How a failed lease store operation is reported: a unique-key violation
/// is a conflict, a refused check constraint an inconsistency carrying the
/// store's description, anything else unexpected.
pub fn lease_store_error(failure: StoreFailure) -> (error: RepositoryError)
    ensures
        failure.kind == StoreFailureKind::UniqueViolation ==> error == RepositoryError::Conflict,
        failure.kind == StoreFailureKind::CheckViolation ==> error == RepositoryError::Consistency(
            failure.message,
        ),
        failure.kind != StoreFailureKind::UniqueViolation && failure.kind
            != StoreFailureKind::CheckViolation ==> error == RepositoryError::Unexpected(failure.message),
{
    match failure.kind {
        StoreFailureKind::UniqueViolation => RepositoryError::Conflict,
        StoreFailureKind::CheckViolation => RepositoryError::Consistency(failure.message),
        _ => RepositoryError::Unexpected(failure.message),
    }
}

} // verus!

verus! {

/// The lease row read (and locked) while claiming a CIBA decision; only
/// leases that are unexpired, unrevoked and not cleaned are returned.
#[derive(Clone, Copy, Debug, PartialEq, Eq, Structural)]
pub struct CibaDecisionLease {
    pub expires_at: i64,
    pub ciba_decision_claim_expires_at: Option<i64>,
}

/// The client row read (and locked) while claiming a CIBA decision.
#[derive(Clone, Copy, Debug, PartialEq, Eq, Structural)]
pub struct CibaDecisionClient {
    pub is_active: bool,
    pub conformance_lease_id: Option<u128>,
}

/// A lease that may be claimed: its id and its own expiry.
#[derive(Clone, Copy, Debug, PartialEq, Eq, Structural)]
pub struct CibaClaimLease {
    pub lease_id: u128,
    pub expires_at: i64,
}

/// How a CIBA decision claim ended.
#[derive(Clone, Copy, Debug, PartialEq, Eq, Structural)]
pub enum CibaDecisionClaimOutcome {
    /// No claimable client/lease binding: the decision is skipped.
    Missing,
    /// Another live claim holds the lease.
    Busy,
    /// The client has no lease: the decision runs without a claim.
    Unleased,
    /// The lease is claimed until `lease_expires_at` (whole seconds).
    Claimed { lease_expires_at: i64, claim_id: u128 },
}

/// The next step of a claim transaction.
#[derive(Clone, Copy, Debug, PartialEq, Eq, Structural)]
pub enum CibaClaimStep {
    /// The claim ends here.
    Finish(CibaDecisionClaimOutcome),
    /// Lock and read this lease next.
    LockLease(u128),
    /// Lock and read the client next, carrying the claimable lease (if any).
    LockClient(Option<CibaClaimLease>),
}

pub open spec fn ciba_begin_step(initial: Option<Option<u128>>, expected: Option<u128>) -> CibaClaimStep {
    match initial {
        None => CibaClaimStep::Finish(CibaDecisionClaimOutcome::Missing),
        Some(lease) => if expected is Some && lease != Some(expected->0) {
            CibaClaimStep::Finish(CibaDecisionClaimOutcome::Missing)
        } else {
            match lease {
                Some(lease_id) => CibaClaimStep::LockLease(lease_id),
                None => if expected is Some {
                    CibaClaimStep::Finish(CibaDecisionClaimOutcome::Missing)
                } else {
                    CibaClaimStep::LockClient(None)
                },
            }
        },
    }
}

/// First step: the client's current lease binding (`None` when the client
/// does not exist) against the optionally expected lease.
pub fn ciba_claim_begin(initial: Option<Option<u128>>, expected: Option<u128>) -> (step: CibaClaimStep)
    ensures
        step == ciba_begin_step(initial, expected),
{
    match initial {
        None => CibaClaimStep::Finish(CibaDecisionClaimOutcome::Missing),
        Some(lease) => {
            if let Some(expected_id) = expected {
                if lease != Some(expected_id) {
                    return CibaClaimStep::Finish(CibaDecisionClaimOutcome::Missing);
                }
            }
            match lease {
                Some(lease_id) => CibaClaimStep::LockLease(lease_id),
                None => if expected.is_some() {
                    CibaClaimStep::Finish(CibaDecisionClaimOutcome::Missing)
                } else {
                    CibaClaimStep::LockClient(None)
                },
            }
        },
    }
}

pub open spec fn ciba_lease_step(lease_id: u128, lease: Option<CibaDecisionLease>, now: i64) -> CibaClaimStep {
    match lease {
        None => CibaClaimStep::Finish(CibaDecisionClaimOutcome::Missing),
        Some(row) => if row.ciba_decision_claim_expires_at is Some
            && row.ciba_decision_claim_expires_at->0 > now {
            CibaClaimStep::Finish(CibaDecisionClaimOutcome::Busy)
        } else {
            CibaClaimStep::LockClient(Some(CibaClaimLease { lease_id, expires_at: row.expires_at }))
        },
    }
}

/// Second step: the locked effective lease (`None` when it is no longer
/// effective).  A live claim makes the lease busy.
pub fn ciba_claim_after_lease(lease_id: u128, lease: Option<CibaDecisionLease>, now: i64) -> (step: CibaClaimStep)
    ensures
        step == ciba_lease_step(lease_id, lease, now),
{
    match lease {
        None => CibaClaimStep::Finish(CibaDecisionClaimOutcome::Missing),
        Some(row) => {
            if let Some(claim_expires_at) = row.ciba_decision_claim_expires_at {
                if claim_expires_at > now {
                    return CibaClaimStep::Finish(CibaDecisionClaimOutcome::Busy);
                }
            }
            CibaClaimStep::LockClient(Some(CibaClaimLease { lease_id, expires_at: row.expires_at }))
        },
    }
}

/// The end of a decision claim: the lease's expiry, or thirty seconds from
/// now when that comes first (the lease's expiry alone when `now + 30 s`
/// is not representable).
pub open spec fn claim_window_end(lease_expires_at: i64, now: i64) -> i64 {
    match chrono_shifted_micros(now, CIBA_DECISION_CLAIM_SECONDS) {
        Some(deadline) => if lease_expires_at <= deadline { lease_expires_at } else { deadline },
        None => lease_expires_at,
    }
}

pub open spec fn ciba_finish_outcome(
    initial_lease: Option<u128>,
    expected: Option<u128>,
    lease: Option<CibaClaimLease>,
    client: Option<CibaDecisionClient>,
    now: i64,
    claim_id: u128,
) -> CibaDecisionClaimOutcome {
    match client {
        None => CibaDecisionClaimOutcome::Missing,
        Some(c) => if !c.is_active || c.conformance_lease_id != initial_lease || (expected is Some
            && c.conformance_lease_id != Some(expected->0)) {
            CibaDecisionClaimOutcome::Missing
        } else {
            match lease {
                None => CibaDecisionClaimOutcome::Unleased,
                Some(l) => {
                    let end = claim_window_end(l.expires_at, now);
                    if end <= now {
                        CibaDecisionClaimOutcome::Missing
                    } else {
                        CibaDecisionClaimOutcome::Claimed {
                            lease_expires_at: (end / MICROS_PER_SECOND) as i64,
                            claim_id,
                        }
                    }
                },
            }
        },
    }
}

/// Final step: the locked client must still be active and bound to the same
/// lease.  A claimed lease also yields the row update to write: the lease id
/// and the claim's end.
pub fn ciba_claim_finish(
    initial_lease: Option<u128>,
    expected: Option<u128>,
    lease: Option<CibaClaimLease>,
    client: Option<CibaDecisionClient>,
    now: i64,
    claim_id: u128,
) -> (result: (CibaDecisionClaimOutcome, Option<(u128, i64)>))
    ensures
        result.0 == ciba_finish_outcome(initial_lease, expected, lease, client, now, claim_id),
        result.0 is Claimed <==> result.1 is Some,
        result.1 matches Some(write) ==> lease matches Some(l) && write.0 == l.lease_id && write.1
            == claim_window_end(l.expires_at, now),
{
    let Some(row) = client else {
        return (CibaDecisionClaimOutcome::Missing, None);
    };
    let mut bound = row.is_active && row.conformance_lease_id == initial_lease;
    if let Some(expected_id) = expected {
        if row.conformance_lease_id != Some(expected_id) {
            bound = false;
        }
    }
    if !bound {
        return (CibaDecisionClaimOutcome::Missing, None);
    }
    let Some(claimable) = lease else {
        return (CibaDecisionClaimOutcome::Unleased, None);
    };
    let end = match chrono_add_seconds(now, CIBA_DECISION_CLAIM_SECONDS) {
        Some(deadline) => earliest(claimable.expires_at, deadline),
        None => claimable.expires_at,
    };
    if end <= now {
        return (CibaDecisionClaimOutcome::Missing, None);
    }
    (
        CibaDecisionClaimOutcome::Claimed { lease_expires_at: unix_seconds(end), claim_id },
        Some((claimable.lease_id, end)),
    )
}

/// The whole claim decision over everything the transaction reads.
pub open spec fn ciba_claim_outcome(
    initial: Option<Option<u128>>,
    expected: Option<u128>,
    lease_row: Option<CibaDecisionLease>,
    client: Option<CibaDecisionClient>,
    now: i64,
    claim_id: u128,
) -> CibaDecisionClaimOutcome {
    match ciba_begin_step(initial, expected) {
        CibaClaimStep::Finish(outcome) => outcome,
        CibaClaimStep::LockClient(lease) => ciba_finish_outcome(
            initial->0,
            expected,
            lease,
            client,
            now,
            claim_id,
        ),
        CibaClaimStep::LockLease(lease_id) => match ciba_lease_step(lease_id, lease_row, now) {
            CibaClaimStep::LockClient(lease) => ciba_finish_outcome(
                initial->0,
                expected,
                lease,
                client,
                now,
                claim_id,
            ),
            CibaClaimStep::Finish(outcome) => outcome,
            CibaClaimStep::LockLease(_) => CibaDecisionClaimOutcome::Missing,
        },
    }
}

/// A decision is only ever claimed for an active client that is still bound
/// to the effective lease it started from (and to the expected lease when
/// one is given), on a lease no other live claim holds, and the claim never
/// outlives the lease nor thirty seconds.
pub proof fn lemma_claim_requires_live_binding(
    initial: Option<Option<u128>>,
    expected: Option<u128>,
    lease_row: Option<CibaDecisionLease>,
    client: Option<CibaDecisionClient>,
    now: i64,
    claim_id: u128,
)
    requires
        ciba_claim_outcome(initial, expected, lease_row, client, now, claim_id) is Claimed,
    ensures
        initial matches Some(Some(lease_id)) && {
            &&& client matches Some(c) && c.is_active && c.conformance_lease_id == Some(lease_id)
            &&& expected is None || expected == Some(lease_id)
            &&& lease_row matches Some(row) && {
                &&& row.ciba_decision_claim_expires_at is None
                    || row.ciba_decision_claim_expires_at->0 <= now
                &&& now < claim_window_end(row.expires_at, now) <= row.expires_at
            }
        },
{
}

/// A busy lease never lets a second decision run.
pub proof fn lemma_live_claim_excludes_decisions(
    lease_id: u128,
    expected: Option<u128>,
    lease_row: CibaDecisionLease,
    client: Option<CibaDecisionClient>,
    now: i64,
    claim_id: u128,
)
    requires
        expected is None || expected == Some(lease_id),
        lease_row.ciba_decision_claim_expires_at matches Some(t) && now < t,
    ensures
        ciba_claim_outcome(Some(Some(lease_id)), expected, Some(lease_row), client, now, claim_id)
            == CibaDecisionClaimOutcome::Busy,
{
}

/// What the repository does with a claim outcome: skip (`Ok(None)`), refuse
/// a busy lease, or run the decision with the claimed lease expiry
/// (`Ok(Some(None))` when unleased).
pub fn ciba_claim_dispatch(outcome: CibaDecisionClaimOutcome) -> (result: Result<Option<Option<i64>>, RepositoryError>)
    ensures
        outcome == CibaDecisionClaimOutcome::Missing ==> result == Ok::<Option<Option<i64>>, RepositoryError>(None),
        outcome == CibaDecisionClaimOutcome::Busy ==> result == Err::<Option<Option<i64>>, RepositoryError>(RepositoryError::Conflict),
        outcome == CibaDecisionClaimOutcome::Unleased ==> result == Ok::<Option<Option<i64>>, RepositoryError>(Some(None)),
        outcome matches CibaDecisionClaimOutcome::Claimed { lease_expires_at, .. } ==> result
            == Ok::<Option<Option<i64>>, RepositoryError>(Some(Some(lease_expires_at))),
{
    match outcome {
        CibaDecisionClaimOutcome::Missing => Ok(None),
        CibaDecisionClaimOutcome::Busy => Err(RepositoryError::Conflict),
        CibaDecisionClaimOutcome::Unleased => Ok(Some(None)),
        CibaDecisionClaimOutcome::Claimed { lease_expires_at, .. } => Ok(Some(Some(lease_expires_at))),
    }
}

} // verus!
