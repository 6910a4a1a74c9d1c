use nazo_postgres::credential_crypto::{dataset_aad, protect_dataset_claims, unprotect_dataset_claims, CredentialStoreError};

const KEY: [u8; 32] = [7u8; 32];

#[test]
fn dataset_aad_layout() {
    let aad = dataset_aad(1, 2, "pid");
    let mut expected = 1u128.to_be_bytes().to_vec();
    expected.extend_from_slice(&2u128.to_be_bytes());
    expected.extend_from_slice(&3u64.to_be_bytes());
    expected.extend_from_slice(b"pid");
    assert_eq!(aad, expected);
}

#[test]
fn dataset_claims_round_trip() {
    let claims = br#"{"given_name":"Alice"}"#;
    let protected = protect_dataset_claims(&KEY, 1, 2, "pid", claims).expect("sealed");
    assert_eq!(protected.len(), 12 + claims.len() + 16);
    assert_ne!(&protected[12..12 + claims.len()], &claims[..]);
    assert_eq!(unprotect_dataset_claims(&KEY, 1, 2, "pid", &protected), Ok(claims.to_vec()));
}

#[test]
fn dataset_claims_are_bound_to_their_dataset() {
    let protected = protect_dataset_claims(&KEY, 1, 2, "pid", b"{}").expect("sealed");
    assert_eq!(
        unprotect_dataset_claims(&KEY, 1, 3, "pid", &protected),
        Err(CredentialStoreError::InvalidTransition)
    );
    assert_eq!(
        unprotect_dataset_claims(&KEY, 1, 2, "mdl", &protected),
        Err(CredentialStoreError::InvalidTransition)
    );
    assert_eq!(
        unprotect_dataset_claims(&[8u8; 32], 1, 2, "pid", &protected),
        Err(CredentialStoreError::InvalidTransition)
    );
    assert_eq!(
        unprotect_dataset_claims(&KEY, 1, 2, "pid", &protected[..11]),
        Err(CredentialStoreError::InvalidTransition)
    );
}

#[test]
fn dataset_claims_must_be_json() {
    let protected = protect_dataset_claims(&KEY, 1, 2, "pid", b"not json").expect("sealed");
    assert_eq!(
        unprotect_dataset_claims(&KEY, 1, 2, "pid", &protected),
        Err(CredentialStoreError::InvalidTransition)
    );
}
