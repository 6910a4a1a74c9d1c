use vstd::prelude::*;

verus! {

/// Outcome classes that every repository operation reports to its callers.
///
/// `Consistency` and `Unexpected` carry a human-readable diagnostic; the other
/// variants are authoritative outcomes that callers match on.
#[derive(Debug, Clone, PartialEq, Eq)]
pub enum RepositoryError {
    NotFound,
    Conflict,
    AlreadyProcessed,
    Unavailable,
    Consistency(String),
    Unexpected(String),
}

/// The kinds of store failure the repositories tell apart.
#[derive(Clone, Copy, Debug, PartialEq, Eq, Structural)]
pub enum StoreFailureKind {
    NotFound,
    RolledBack,
    UniqueViolation,
    /// A check constraint refused the write.
    CheckViolation,
    Other,
}

/// A failed store operation: its kind and the store's own description.
#[derive(Debug, Clone)]
pub struct StoreFailure {
    pub kind: StoreFailureKind,
    pub message: String,
}

/// Success exactly when one row was affected; any other row count is a
/// lost race reported as `Conflict`.
pub fn require_single_row(affected: usize) -> (result: Result<(), RepositoryError>)
    ensures
        affected == 1 ==> result is Ok,
        affected != 1 ==> result == Err::<(), RepositoryError>(RepositoryError::Conflict),
{
    if affected == 1 {
        Ok(())
    } else {
        Err(RepositoryError::Conflict)
    }
}

/// Whether a store failure is a unique-key violation (a racing identical
/// insert that a single retry settles).
pub fn is_unique_violation(kind: StoreFailureKind) -> (result: bool)
    ensures
        result == (kind == StoreFailureKind::UniqueViolation),
{
    match kind {
        StoreFailureKind::UniqueViolation => true,
        _ => false,
    }
}

/// A `Consistency` error carrying `message`.
pub fn consistency(message: &str) -> (error: RepositoryError)
    ensures
        error matches RepositoryError::Consistency(text) && text@ == message@,
{
    RepositoryError::Consistency(message.to_owned())
}

/// An `Unexpected` error carrying `message`.
pub fn unexpected(message: &str) -> (error: RepositoryError)
    ensures
        error matches RepositoryError::Unexpected(text) && text@ == message@,
{
    RepositoryError::Unexpected(message.to_owned())
}

/// A count query matches exactly when it found one row.
pub fn matches_exactly_one(count: i64) -> (result: bool)
    ensures
        result == (count == 1),
{
    count == 1
}

} // verus!
