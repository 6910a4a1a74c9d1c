use nazo_postgres::clients::PortError;
use nazo_postgres::grants::{
    admin_grant_revoke_error, last_scopes, AdminGrantRevokeError, GrantRevokeFailure,
};

#[test]
fn grant_view_keeps_only_string_scopes_in_order() {
    let items = vec![
        Some("openid".to_owned()),
        None,
        Some("email".to_owned()),
        None,
    ];
    assert_eq!(last_scopes(Some(items)), vec!["openid".to_owned(), "email".to_owned()]);
}

#[test]
fn grant_view_reads_a_non_array_as_no_scopes() {
    assert!(last_scopes(None).is_empty());
    assert!(last_scopes(Some(Vec::new())).is_empty());
}

#[test]
fn grant_revocation_failures_map_to_port_errors() {
    assert_eq!(
        admin_grant_revoke_error(GrantRevokeFailure::ClientNotFound),
        AdminGrantRevokeError::ClientNotFound
    );
    assert_eq!(
        admin_grant_revoke_error(GrantRevokeFailure::ClientLookup),
        AdminGrantRevokeError::ClientLookup(PortError::Unexpected)
    );
    assert_eq!(
        admin_grant_revoke_error(GrantRevokeFailure::Revoke),
        AdminGrantRevokeError::Revoke(PortError::Unexpected)
    );
}
