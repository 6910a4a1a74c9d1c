use nazo_postgres::error::{
    consistency, is_unique_violation, matches_exactly_one, require_single_row, unexpected,
    RepositoryError, StoreFailureKind,
};

#[test]
fn a_single_affected_row_is_required() {
    assert_eq!(require_single_row(1), Ok(()));
    assert_eq!(require_single_row(0), Err(RepositoryError::Conflict));
    assert_eq!(require_single_row(2), Err(RepositoryError::Conflict));
}

#[test]
fn exactly_one_matching_row() {
    assert!(matches_exactly_one(1));
    assert!(!matches_exactly_one(0));
    assert!(!matches_exactly_one(2));
    assert!(!matches_exactly_one(-1));
}

#[test]
fn error_constructors_carry_their_message() {
    assert_eq!(consistency("stale"), RepositoryError::Consistency("stale".to_owned()));
    assert_eq!(unexpected("broken"), RepositoryError::Unexpected("broken".to_owned()));
    assert!(is_unique_violation(StoreFailureKind::UniqueViolation));
    assert!(!is_unique_violation(StoreFailureKind::Other));
}
