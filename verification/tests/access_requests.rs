use nazo_postgres::access_requests::{
    access_request_store_error, approval_recorded, check_approval_context, require_user_in_tenant,
    search_pattern,
};
use nazo_postgres::error::{RepositoryError, StoreFailure, StoreFailureKind};

#[test]
fn search_pattern_trims_and_ignores_blank_queries() {
    assert_eq!(search_pattern(None), None);
    assert_eq!(search_pattern(Some("")), None);
    assert_eq!(search_pattern(Some("   \t")), None);
    assert_eq!(
        search_pattern(Some("  alice@example.com  ")).as_deref(),
        Some("%alice@example.com%")
    );
}

#[test]
fn search_pattern_keeps_inner_whitespace() {
    assert_eq!(
        search_pattern(Some("\n site  name ")).as_deref(),
        Some("%site  name%")
    );
}

#[test]
fn approval_requires_pending_request_and_consistent_users() {
    assert_eq!(
        check_approval_context(None, true, true),
        Err(RepositoryError::AlreadyProcessed)
    );
    assert_eq!(
        check_approval_context(Some(7), false, true),
        Err(RepositoryError::Consistency(
            "access-request user context is inconsistent".to_owned()
        ))
    );
    assert_eq!(
        check_approval_context(Some(7), true, false),
        Err(RepositoryError::Consistency(
            "access-request user context is inconsistent".to_owned()
        ))
    );
    assert_eq!(check_approval_context(Some(7), true, true), Ok(7));
}

#[test]
fn approval_update_must_hit_one_row() {
    assert_eq!(approval_recorded(1), Ok(()));
    assert_eq!(approval_recorded(0), Err(RepositoryError::AlreadyProcessed));
    assert_eq!(approval_recorded(2), Err(RepositoryError::AlreadyProcessed));
}

#[test]
fn new_request_needs_tenant_user() {
    assert_eq!(require_user_in_tenant(true), Ok(()));
    assert_eq!(require_user_in_tenant(false), Err(RepositoryError::NotFound));
}

#[test]
fn access_request_store_errors_map_unique_violation_to_conflict() {
    let unique = StoreFailure { kind: StoreFailureKind::UniqueViolation, message: "dup".to_owned() };
    assert_eq!(access_request_store_error(unique), RepositoryError::Conflict);
    let other = StoreFailure { kind: StoreFailureKind::NotFound, message: "missing".to_owned() };
    assert_eq!(
        access_request_store_error(other),
        RepositoryError::Unexpected("missing".to_owned())
    );
}
