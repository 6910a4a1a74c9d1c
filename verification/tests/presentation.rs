use nazo_postgres::presentation::{
    check_canonical_form, check_completion_consistency, check_create_request_shape,
    check_idempotent_replay, create_step, parse_client_id_prefix, parse_response_mode,
    payload_aad, payload_open_error, ClientIdPrefix, CreateStep, PresentationStoreError,
    ResponseMode,
};

const DIGEST: &str = "ba7816bf8f01cfea414140de5dae2223b00361a396177a9cb410ff61f20015ad";

#[test]
fn create_request_shape() {
    assert_eq!(check_create_request_shape(true, DIGEST, "{}", 10), Ok(()));
    assert_eq!(
        check_create_request_shape(false, DIGEST, "{}", 10),
        Err(PresentationStoreError::InvalidTransition)
    );
    assert_eq!(
        check_create_request_shape(true, &DIGEST.to_uppercase(), "{}", 10),
        Err(PresentationStoreError::InvalidTransition)
    );
    assert_eq!(
        check_create_request_shape(true, DIGEST, "", 10),
        Err(PresentationStoreError::InvalidTransition)
    );
    assert_eq!(
        check_create_request_shape(true, DIGEST, "{\"a\":1}", 6),
        Err(PresentationStoreError::InvalidTransition)
    );
}

#[test]
fn canonical_form_and_replay() {
    assert_eq!(check_canonical_form(Some(("{}", DIGEST)), DIGEST, "{}"), Ok(()));
    assert_eq!(
        check_canonical_form(Some(("{ }", DIGEST)), DIGEST, "{}"),
        Err(PresentationStoreError::InvalidTransition)
    );
    assert_eq!(check_canonical_form(None, DIGEST, "{}"), Err(PresentationStoreError::InvalidTransition));
    assert_eq!(create_step(1), Ok(CreateStep::Created));
    assert_eq!(create_step(0), Ok(CreateStep::LoadExisting));
    assert_eq!(create_step(2), Err(PresentationStoreError::InvalidTransition));
    assert_eq!(check_idempotent_replay(DIGEST, "{}", DIGEST, "{}"), Ok(()));
    assert_eq!(
        check_idempotent_replay(DIGEST, "{}", DIGEST, "[]"),
        Err(PresentationStoreError::IdempotencyConflict)
    );
}

#[test]
fn stored_vocabularies() {
    assert_eq!(parse_client_id_prefix("x509_hash"), Ok(ClientIdPrefix::X509Hash));
    assert_eq!(parse_client_id_prefix("redirect_uri"), Ok(ClientIdPrefix::RedirectUri));
    assert_eq!(parse_client_id_prefix("did"), Err(PresentationStoreError::InvalidTransition));
    assert_eq!(parse_response_mode("direct_post.jwt"), Ok(ResponseMode::DirectPostJwt));
    assert_eq!(parse_response_mode("fragment"), Err(PresentationStoreError::InvalidTransition));
}

#[test]
fn payload_aad_layout() {
    let aad = payload_aad(b"nazo-openid4vp-result-v2", 1, 2);
    let mut expected = 24u64.to_be_bytes().to_vec();
    expected.extend_from_slice(b"nazo-openid4vp-result-v2");
    expected.extend_from_slice(&16u64.to_be_bytes());
    expected.extend_from_slice(&1u128.to_be_bytes());
    expected.extend_from_slice(&16u64.to_be_bytes());
    expected.extend_from_slice(&2u128.to_be_bytes());
    assert_eq!(aad, expected);
}

#[test]
fn completion_consistency_and_open_errors() {
    assert_eq!(check_completion_consistency(Some(5), Some(5)), Ok(()));
    assert_eq!(check_completion_consistency(None, None), Ok(()));
    assert_eq!(check_completion_consistency(Some(5), None), Err(PresentationStoreError::InvalidTransition));
    assert_eq!(payload_open_error(true), PresentationStoreError::Unavailable);
    assert_eq!(payload_open_error(false), PresentationStoreError::InvalidTransition);
}
