//! Token revocation facts and passkey signature counters.

use vstd::prelude::*;
use vstd::string::StringSliceAdditionalSpecFns;

use crate::digest::{blake3_hex, blake3_of, lower_hex_of};
use crate::error::{consistency, RepositoryError};
use crate::time::{chrono_add_seconds, chrono_shifted_micros, MAX_DURATION_SECONDS, MICROS_PER_SECOND};

verus! {

/// How long a revocation fact is kept: the revoked token's verified expiry
/// plus the verifiers' maximum clock skew, so that the fact covers every
/// moment a verifier could still accept the token.
pub fn access_token_revocation_deadline(expires_at: i64, max_clock_skew_seconds: i64) -> (result: Result<i64, RepositoryError>)
    requires
        -MAX_DURATION_SECONDS <= max_clock_skew_seconds <= MAX_DURATION_SECONDS,
    ensures
        match chrono_shifted_micros(expires_at, max_clock_skew_seconds) {
            Some(deadline) => result == Ok::<i64, RepositoryError>(deadline),
            None => result matches Err(RepositoryError::Consistency(text)) && text@
                == "access-token revocation deadline is not representable"@,
        },
        result matches Ok(deadline) ==> deadline == expires_at + max_clock_skew_seconds * MICROS_PER_SECOND,
{
    match chrono_add_seconds(expires_at, max_clock_skew_seconds) {
        Some(deadline) => Ok(deadline),
        None => Err(consistency("access-token revocation deadline is not representable")),
    }
}

/// What storing a revocation fact does to the fact already stored for the
/// same token (its retention deadline, if any).
#[derive(Clone, Copy, Debug, PartialEq, Eq, Structural)]
pub enum RevocationWrite {
    /// No fact yet: insert the new one.
    Insert,
    /// Extend the stored deadline to this later one; identity, owner and the
    /// first revocation time stay.
    Extend(i64),
    /// The stored deadline already covers the new one.
    Keep,
}

pub open spec fn revocation_write_of(stored_deadline: Option<i64>, deadline: i64) -> RevocationWrite {
    match stored_deadline {
        None => RevocationWrite::Insert,
        Some(stored) => if stored < deadline {
            RevocationWrite::Extend(deadline)
        } else {
            RevocationWrite::Keep
        },
    }
}

pub fn revocation_write(stored_deadline: Option<i64>, deadline: i64) -> (write: RevocationWrite)
    ensures
        write == revocation_write_of(stored_deadline, deadline),
{
    match stored_deadline {
        None => RevocationWrite::Insert,
        Some(stored) => if stored < deadline {
            RevocationWrite::Extend(deadline)
        } else {
            RevocationWrite::Keep
        },
    }
}

/// The deadline stored after a write.
pub open spec fn deadline_after(stored_deadline: Option<i64>, write: RevocationWrite, deadline: i64) -> i64 {
    match write {
        RevocationWrite::Insert => deadline,
        RevocationWrite::Extend(later) => later,
        RevocationWrite::Keep => stored_deadline->0,
    }
}

/// Storing revocation facts only ever extends coverage: afterwards the
/// stored deadline is the later of the old and the new one.
pub proof fn lemma_revocation_deadline_only_extends(stored_deadline: Option<i64>, deadline: i64)
    ensures
        ({
            let after = deadline_after(stored_deadline, revocation_write_of(stored_deadline, deadline), deadline);
            &&& after >= deadline
            &&& stored_deadline matches Some(stored) ==> after >= stored
            &&& after == deadline || stored_deadline == Some(after)
        }),
{
}

/// The revocation fact's key for an access token: the lowercase-hex BLAKE3
/// of its `jti`.
pub fn access_token_jti_digest(jti: &str) -> (digest: String)
    ensures
        digest@ == lower_hex_of(blake3_of(jti.spec_bytes())),
        digest@.len() == 64,
{
    blake3_hex(jti)
}

/// What revoking the tokens of an authorization writes: a revocation fact
/// for the access token until `record_until` (when its expiry is known),
/// and the invalidation of the refresh family (when there is one).
#[derive(Clone, Copy, Debug, PartialEq, Eq, Structural)]
pub struct TokenRevocationPlan {
    pub record_until: Option<i64>,
    pub refresh_family: Option<u128>,
}

pub fn plan_token_revocation(
    access_token_expires_at: Option<i64>,
    refresh_token_family_id: Option<u128>,
    max_clock_skew_seconds: i64,
) -> (result: Result<TokenRevocationPlan, RepositoryError>)
    requires
        -MAX_DURATION_SECONDS <= max_clock_skew_seconds <= MAX_DURATION_SECONDS,
    ensures
        match access_token_expires_at {
            None => result == Ok::<TokenRevocationPlan, RepositoryError>(
                TokenRevocationPlan { record_until: None, refresh_family: refresh_token_family_id },
            ),
            Some(expires_at) => match chrono_shifted_micros(expires_at, max_clock_skew_seconds) {
                Some(deadline) => result == Ok::<TokenRevocationPlan, RepositoryError>(
                    TokenRevocationPlan { record_until: Some(deadline), refresh_family: refresh_token_family_id },
                ),
                None => result matches Err(RepositoryError::Consistency(_)),
            },
        },
{
    let record_until = match access_token_expires_at {
        Some(expires_at) => Some(access_token_revocation_deadline(expires_at, max_clock_skew_seconds)?),
        None => None,
    };
    Ok(TokenRevocationPlan { record_until, refresh_family: refresh_token_family_id })
}

/// A passkey assertion may move the signature counter from the expected
/// value to the new one: counters never go negative and must strictly
/// increase, except that authenticators without counters report 0 twice.
pub open spec fn sign_count_advance_allowed(expected: i64, new: i64) -> bool {
    expected >= 0 && ((expected == 0 && new == 0) || new > expected)
}

pub fn check_sign_count_advance(expected_sign_count: i64, new_sign_count: i64) -> (result: Result<(), RepositoryError>)
    ensures
        sign_count_advance_allowed(expected_sign_count, new_sign_count) ==> result is Ok,
        !sign_count_advance_allowed(expected_sign_count, new_sign_count) ==> result == Err::<(), RepositoryError>(
            RepositoryError::Conflict,
        ),
{
    let zero_counter = expected_sign_count == 0 && new_sign_count == 0;
    if expected_sign_count < 0 || (!zero_counter && new_sign_count <= expected_sign_count) {
        return Err(RepositoryError::Conflict);
    }
    Ok(())
}

/// An accepted counter never moves backwards, and only a counterless
/// authenticator may repeat its value.
pub proof fn lemma_sign_count_monotone(expected: i64, new: i64)
    requires
        sign_count_advance_allowed(expected, new),
    ensures
        new >= expected,
        new == expected ==> new == 0,
{
}

} // verus!
