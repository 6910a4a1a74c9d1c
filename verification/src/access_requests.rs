//! Client access requests: the admin search filter and the approval
//! checks around creating the approved client.

use vstd::prelude::*;

use crate::error::{consistency, RepositoryError, StoreFailure, StoreFailureKind};
use crate::text::{string_from_chars, trim_chars, trimmed_chars};

verus! {

/// The `ILIKE` pattern of an admin search: the trimmed query wrapped in
/// `%`, or no filter when the query is absent or blank.
pub open spec fn search_pattern_of(search: Option<Seq<char>>) -> Option<Seq<char>> {
    match search {
        None => None,
        Some(query) => if trim_chars(query).len() == 0 {
            None
        } else {
            Some(seq!['%'] + trim_chars(query) + seq!['%'])
        },
    }
}

pub fn search_pattern(search: Option<&str>) -> (pattern: Option<String>)
    ensures
        match pattern {
            Some(p) => search_pattern_of(
                match search {
                    Some(s) => Some(s@),
                    None => None,
                },
            ) == Some(p@),
            None => search_pattern_of(
                match search {
                    Some(s) => Some(s@),
                    None => None,
                },
            ) is None,
        },
{
    let Some(query) = search else {
        return None;
    };
    let trimmed = trimmed_chars(query);
    if trimmed.len() == 0 {
        return None;
    }
    let mut chars: Vec<char> = Vec::new();
    chars.push('%');
    let mut i: usize = 0;
    while i < trimmed.len()
        invariant
            i <= trimmed@.len(),
            chars@ == seq!['%'] + trimmed@.take(i as int),
        decreases trimmed@.len() - i,
    {
        assert(trimmed@.take(i + 1) =~= trimmed@.take(i as int).push(trimmed@[i as int]));
        chars.push(trimmed[i]);
        i = i + 1;
    }
    chars.push('%');
    assert(trimmed@.take(trimmed@.len() as int) =~= trimmed@);
    assert(chars@ =~= seq!['%'] + trim_chars(query@) + seq!['%']);
    Some(string_from_chars(chars.as_slice()))
}

/// Before approving, the request must still be pending (`pending` is its
/// requester, when it is), and both the requester and the approving admin
/// must belong to the tenant context (checked in that order).  Yields the
/// requester.
pub fn check_approval_context(
    pending: Option<u128>,
    requester_in_context: bool,
    actor_in_context: bool,
) -> (result: Result<u128, RepositoryError>)
    ensures
        pending is None ==> result == Err::<u128, RepositoryError>(RepositoryError::AlreadyProcessed),
        pending is Some && !(requester_in_context && actor_in_context) ==> (result matches Err(
            RepositoryError::Consistency(text),
        ) && text@ == "access-request user context is inconsistent"@),
        pending is Some && requester_in_context && actor_in_context ==> result
            == Ok::<u128, RepositoryError>(pending->0),
{
    let Some(requester) = pending else {
        return Err(RepositoryError::AlreadyProcessed);
    };
    if !requester_in_context || !actor_in_context {
        return Err(consistency("access-request user context is inconsistent"));
    }
    Ok(requester)
}

/// The approval is recorded only when exactly the one pending request
/// moved to approved; otherwise another resolution won the race.
pub fn approval_recorded(updated: usize) -> (result: Result<(), RepositoryError>)
    ensures
        updated == 1 ==> result is Ok,
        updated != 1 ==> result == Err::<(), RepositoryError>(RepositoryError::AlreadyProcessed),
{
    if updated == 1 {
        Ok(())
    } else {
        Err(RepositoryError::AlreadyProcessed)
    }
}

/// A new request needs its user to belong to the request's tenant.
pub fn require_user_in_tenant(user_in_tenant: bool) -> (result: Result<(), RepositoryError>)
    ensures
        user_in_tenant ==> result is Ok,
        !user_in_tenant ==> result == Err::<(), RepositoryError>(RepositoryError::NotFound),
{
    if user_in_tenant {
        Ok(())
    } else {
        Err(RepositoryError::NotFound)
    }
}

/// How a failed access-request store operation is reported: a unique-key
/// violation is a conflict, anything else unexpected.
pub fn access_request_store_error(failure: StoreFailure) -> (error: RepositoryError)
    ensures
        failure.kind == StoreFailureKind::UniqueViolation ==> error == RepositoryError::Conflict,
        failure.kind != StoreFailureKind::UniqueViolation ==> error == RepositoryError::Unexpected(
            failure.message,
        ),
{
    match failure.kind {
        StoreFailureKind::UniqueViolation => RepositoryError::Conflict,
        _ => RepositoryError::Unexpected(failure.message),
    }
}

} // verus!
