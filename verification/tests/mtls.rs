use nazo_postgres::error::RepositoryError;
use nazo_postgres::mtls::{
    active_bundle, require_request_user, trust_request_created, trust_request_transitioned,
    validate_trust_anchor_metadata,
};

const PEM: &str = "-----BEGIN CERTIFICATE-----\nMIIB\n-----END CERTIFICATE-----\n";
const DIGEST: &str = "ba7816bf8f01cfea414140de5dae2223b00361a396177a9cb410ff61f20015ad";

fn invalid() -> Result<(), RepositoryError> {
    Err(RepositoryError::Consistency("operator-managed trust anchor metadata is invalid".to_owned()))
}

#[test]
fn valid_metadata_is_accepted() {
    assert_eq!(validate_trust_anchor_metadata(PEM, DIGEST, "CN=client", 1, 2), Ok(()));
}

#[test]
fn metadata_shape_errors() {
    assert_eq!(validate_trust_anchor_metadata("MIIB", DIGEST, "CN=client", 1, 2), invalid());
    assert_eq!(
        validate_trust_anchor_metadata("-----BEGIN CERTIFICATE-----\nMIIB\n", DIGEST, "CN=client", 1, 2),
        invalid()
    );
    assert_eq!(validate_trust_anchor_metadata(PEM, DIGEST, "  ", 1, 2), invalid());
    assert_eq!(validate_trust_anchor_metadata(PEM, DIGEST, "CN=a\u{7}b", 1, 2), invalid());
    assert_eq!(validate_trust_anchor_metadata(PEM, DIGEST, "CN=client", 2, 2), invalid());
    assert_eq!(validate_trust_anchor_metadata(PEM, DIGEST, &"C".repeat(2049), 1, 2), invalid());
    let long_pem = format!("{PEM}{}", "A".repeat(16 * 1024));
    assert_eq!(validate_trust_anchor_metadata(&long_pem, DIGEST, "CN=client", 1, 2), invalid());
}

#[test]
fn metadata_digest_errors() {
    assert_eq!(
        validate_trust_anchor_metadata(PEM, &DIGEST.to_uppercase(), "CN=client", 1, 2),
        Err(RepositoryError::Consistency(
            "operator-managed trust anchor digest is not a lowercase SHA-256 value".to_owned()
        ))
    );
}

#[test]
fn request_outcomes() {
    assert_eq!(trust_request_created(true, true), Ok(()));
    assert_eq!(trust_request_created(false, true), Err(RepositoryError::Conflict));
    assert_eq!(trust_request_created(false, false), Err(RepositoryError::NotFound));
    assert_eq!(trust_request_transitioned(true), Ok(()));
    assert_eq!(trust_request_transitioned(false), Err(RepositoryError::Conflict));
    assert_eq!(require_request_user(Some(3)), Ok(3));
    assert_eq!(
        require_request_user(None),
        Err(RepositoryError::Consistency(
            "operator-managed trust anchor is not an admin user request".to_owned()
        ))
    );
}

#[test]
fn bundles_concatenate_and_are_bounded() {
    let pems = vec!["a".to_owned(), "bc".to_owned()];
    assert_eq!(active_bundle(&pems), Ok("abc".to_owned()));
    assert_eq!(active_bundle(&Vec::new()), Ok(String::new()));
    let many = vec!["x".to_owned(); 129];
    assert_eq!(active_bundle(&many), Err(RepositoryError::Conflict));
    assert_eq!(active_bundle(&vec!["x".to_owned(); 128]).map(|b| b.len()), Ok(128));
}
