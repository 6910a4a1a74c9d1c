use nazo_postgres::error::{RepositoryError, StoreFailure, StoreFailureKind};
use nazo_postgres::scim::{
    active_transition, apply_scim_patch, deactivation_result, deactivation_step, event_fetch_limit,
    event_page, revokes_tokens, scim_store_error, DeactivationStep, ScimPatch, ScimUserState,
    disposition_writes, Disposition, DispositionWrite, SetErrorReport,
};

fn alice() -> ScimUserState {
    ScimUserState {
        user_name: "alice".to_owned(),
        email: "alice@example.com".to_owned(),
        active: true,
        display_name: Some("Alice".to_owned()),
        given_name: None,
        family_name: Some("Liddell".to_owned()),
    }
}

fn empty_patch() -> ScimPatch {
    ScimPatch { user_name: None, email: None, active: None, display_name: None, given_name: None, family_name: None }
}

#[test]
fn empty_patch_changes_nothing() {
    assert_eq!(apply_scim_patch(alice(), empty_patch()), alice());
}

#[test]
fn patch_replaces_present_attributes() {
    let patch = ScimPatch {
        email: Some("a@example.org".to_owned()),
        active: Some(false),
        given_name: Some("Al".to_owned()),
        ..empty_patch()
    };
    let next = apply_scim_patch(alice(), patch.clone());
    assert_eq!(next.email, "a@example.org");
    assert!(!next.active);
    assert_eq!(next.given_name.as_deref(), Some("Al"));
    assert_eq!(next.display_name.as_deref(), Some("Alice"));
    assert_eq!(apply_scim_patch(next.clone(), patch), next);
}

#[test]
fn activity_transitions_and_revocation() {
    assert_eq!(active_transition(true, false), Some(false));
    assert_eq!(active_transition(false, true), Some(true));
    assert_eq!(active_transition(true, true), None);
    assert!(revokes_tokens(false));
    assert!(!revokes_tokens(true));
}

#[test]
fn deactivation_outcomes() {
    assert_eq!(deactivation_step(None), DeactivationStep::Absent);
    assert_eq!(deactivation_step(Some(false)), DeactivationStep::AlreadyInactive);
    assert_eq!(deactivation_step(Some(true)), DeactivationStep::Deactivate);
    assert!(!deactivation_result(DeactivationStep::Absent, 0));
    assert!(deactivation_result(DeactivationStep::AlreadyInactive, 0));
    assert!(deactivation_result(DeactivationStep::Deactivate, 1));
    assert!(!deactivation_result(DeactivationStep::Deactivate, 0));
}

#[test]
fn scim_store_errors() {
    let f = |kind| StoreFailure { kind, message: "m".to_owned() };
    assert_eq!(scim_store_error(f(StoreFailureKind::NotFound)), RepositoryError::NotFound);
    assert_eq!(scim_store_error(f(StoreFailureKind::UniqueViolation)), RepositoryError::Conflict);
    assert_eq!(scim_store_error(f(StoreFailureKind::RolledBack)), RepositoryError::Unexpected("m".to_owned()));
}

#[test]
fn event_pages_report_more() {
    assert_eq!(event_fetch_limit(10), 11);
    assert_eq!(event_page(vec![1, 2, 3], 2), (vec![1, 2], true));
    assert_eq!(event_page(vec![1, 2], 2), (vec![1, 2], false));
    assert_eq!(event_page(Vec::<u8>::new(), 0), (Vec::new(), false));
}

#[test]
fn poll_records_acknowledgements_before_errors() {
    let errors = vec![SetErrorReport {
        event_id: 9,
        code: "jwtAud".to_owned(),
        description: "bad audience".to_owned(),
    }];
    let writes = disposition_writes(&[3, 4], &errors);
    assert_eq!(
        writes,
        vec![
            DispositionWrite { event_id: 3, disposition: Disposition::Acknowledged, error: None },
            DispositionWrite { event_id: 4, disposition: Disposition::Acknowledged, error: None },
            DispositionWrite {
                event_id: 9,
                disposition: Disposition::Error,
                error: Some(("jwtAud".to_owned(), "bad audience".to_owned())),
            },
        ]
    );
    assert!(disposition_writes(&[], &[]).is_empty());
}
