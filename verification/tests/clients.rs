use nazo_postgres::clients::{
    client_store_error, dynamic_registration_error, port_error, registration_replaced,
    require_flow_tenant, string_array, DynamicRegistrationFailure, PortError,
    read_client_lists, ClientListColumns,
};
use nazo_postgres::error::{RepositoryError, StoreFailure, StoreFailureKind};

#[test]
fn persisted_client_string_arrays_reject_non_array_json() {
    assert!(string_array(br#""authorization_code""#, "grant_types").is_err());
}

#[test]
fn persisted_client_string_array_errors_carry_no_position() {
    assert_eq!(
        string_array(br#""authorization_code""#, "grant_types"),
        Err(RepositoryError::Unexpected(
            "invalid OAuth client grant_types: invalid type: string \"authorization_code\", expected a sequence"
                .to_owned()
        ))
    );
}

#[test]
fn persisted_client_string_arrays_read_arrays() {
    assert_eq!(
        string_array(br#"["authorization_code","refresh_token"]"#, "grant_types"),
        Ok(vec!["authorization_code".to_owned(), "refresh_token".to_owned()])
    );
    assert_eq!(string_array(b"[]", "scopes"), Ok(Vec::new()));
}

#[test]
fn persisted_client_string_array_errors_name_the_field() {
    match string_array(b"[1,2]", "scopes") {
        Err(RepositoryError::Unexpected(message)) => {
            assert!(message.starts_with("invalid OAuth client scopes: "));
        }
        other => panic!("unexpected result: {other:?}"),
    }
}

#[test]
fn registration_replacement_needs_one_active_row() {
    assert_eq!(registration_replaced(1), Ok(()));
    assert_eq!(registration_replaced(0), Err(RepositoryError::NotFound));
}

#[test]
fn client_store_errors() {
    let missing = StoreFailure { kind: StoreFailureKind::NotFound, message: "x".to_owned() };
    assert_eq!(client_store_error(missing), RepositoryError::NotFound);
    let other = StoreFailure { kind: StoreFailureKind::UniqueViolation, message: "dup".to_owned() };
    assert_eq!(client_store_error(other), RepositoryError::Unexpected("dup".to_owned()));
}

#[test]
fn repository_errors_map_to_port_errors() {
    assert_eq!(port_error(RepositoryError::Unavailable), PortError::Unavailable);
    assert_eq!(port_error(RepositoryError::Conflict), PortError::Conflict);
    assert_eq!(port_error(RepositoryError::AlreadyProcessed), PortError::Conflict);
    assert_eq!(
        port_error(RepositoryError::Consistency("bad".to_owned())),
        PortError::CorruptData
    );
    assert_eq!(port_error(RepositoryError::NotFound), PortError::Unexpected);
    assert_eq!(
        port_error(RepositoryError::Unexpected("x".to_owned())),
        PortError::Unexpected
    );
}

#[test]
fn flow_tenant_and_dynamic_registration_errors() {
    assert_eq!(require_flow_tenant(1, 1), Ok(()));
    assert_eq!(require_flow_tenant(1, 2), Err(PortError::CorruptData));
    assert_eq!(
        dynamic_registration_error(RepositoryError::NotFound),
        DynamicRegistrationFailure::StaleCredentials
    );
    assert_eq!(
        dynamic_registration_error(RepositoryError::Conflict),
        DynamicRegistrationFailure::Unavailable
    );
}

fn list_columns() -> ClientListColumns {
    ClientListColumns {
        redirect_uris: br#"["https://rp.example/cb"]"#.to_vec(),
        post_logout_redirect_uris: b"[]".to_vec(),
        scopes: br#"["openid","profile"]"#.to_vec(),
        allowed_audiences: b"[]".to_vec(),
        grant_types: br#"["authorization_code"]"#.to_vec(),
        tls_client_auth_san_dns: b"[]".to_vec(),
        tls_client_auth_san_uri: b"[]".to_vec(),
        tls_client_auth_san_ip: b"[]".to_vec(),
        tls_client_auth_san_email: b"[]".to_vec(),
        request_uris: b"[]".to_vec(),
    }
}

#[test]
fn persisted_client_lists_are_read_in_full() {
    let lists = read_client_lists(&list_columns()).expect("lists");
    assert_eq!(lists.redirect_uris, vec!["https://rp.example/cb".to_owned()]);
    assert_eq!(lists.scopes, vec!["openid".to_owned(), "profile".to_owned()]);
    assert_eq!(lists.grant_types, vec!["authorization_code".to_owned()]);
    assert!(lists.request_uris.is_empty());
}

#[test]
fn persisted_client_lists_report_the_first_broken_column() {
    let mut columns = list_columns();
    columns.grant_types = br#""authorization_code""#.to_vec();
    columns.request_uris = b"{}".to_vec();
    match read_client_lists(&columns) {
        Err(RepositoryError::Unexpected(message)) => {
            assert!(message.starts_with("invalid OAuth client grant_types: "), "{message}");
        }
        other => panic!("unexpected {other:?}"),
    }
}
