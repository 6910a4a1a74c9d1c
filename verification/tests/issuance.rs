use argon2::password_hash::{PasswordHasher, SaltString};
use nazo_postgres::credential_crypto::CredentialStoreError;
use nazo_postgres::issuance::{
    authorization_expiry, claim_nonce, claim_ready_deferred, consume_nonce, consume_ready_deferred,
    finalize_deferred, finalize_nonce, frame_protected_payload, notification_event,
    parse_response_encoding, release_deferred, release_nonce, response_encoding_name,
    response_status_column, split_protected_payload, stored_response_status, tx_code_check,
    tx_code_matches, CredentialResponseEncoding, DeferredState, NonceRow, NotificationEvent,
    TxCodeCheck,
};

const MINUTE: i64 = 60_000_000;

fn nonce(expires_at: i64) -> NonceRow {
    NonceRow { created_at: 0, expires_at, consumed_at: None, claim_id: None, claim_expires_at: None }
}

#[test]
fn tx_codes() {
    assert!(tx_code_matches(None, None));
    assert!(!tx_code_matches(Some("$argon2id$v=19$m=19456,t=2,p=1$c2FsdHNhbHQ$aGFzaA"), None));
    assert!(!tx_code_matches(None, Some("1234")));
    assert!(!tx_code_matches(Some("not a phc string"), Some("1234")));
    assert_eq!(tx_code_check(false, false), TxCodeCheck::NotRequired);
    assert_eq!(tx_code_check(true, false), TxCodeCheck::Mismatch);
    assert_eq!(tx_code_check(false, true), TxCodeCheck::Mismatch);
    assert_eq!(tx_code_check(true, true), TxCodeCheck::Verify);
}

#[test]
fn tx_code_verifies_against_argon2_hash() {
    let salt = SaltString::encode_b64(b"fixed-salt-bytes").expect("salt");
    let hash = argon2::Argon2::default().hash_password(b"493817", &salt).expect("hash").to_string();
    assert!(tx_code_matches(Some(&hash), Some("493817")));
    assert!(!tx_code_matches(Some(&hash), Some("493818")));
}

#[test]
fn authorization_lasts_ten_minutes_at_most() {
    assert_eq!(authorization_expiry(0, 60 * MINUTE), 10 * MINUTE);
    assert_eq!(authorization_expiry(0, 5 * MINUTE), 5 * MINUTE);
}

#[test]
fn nonces_are_single_use() {
    let mut row = nonce(100);
    assert!(consume_nonce(&mut row, 10));
    assert_eq!(row.consumed_at, Some(10));
    assert!(!consume_nonce(&mut row, 11));
    assert!(!claim_nonce(&mut row, "c", 12));
    let mut expired = nonce(100);
    assert!(!consume_nonce(&mut expired, 100));
}

#[test]
fn nonce_claims_are_exclusive() {
    let mut row = nonce(100 * MINUTE);
    assert!(claim_nonce(&mut row, "a", 0));
    assert_eq!(row.claim_expires_at, Some(5 * MINUTE));
    assert!(!claim_nonce(&mut row, "b", MINUTE));
    assert!(!finalize_nonce(&mut row, "b", MINUTE));
    assert!(!release_nonce(&mut row, "b"));
    assert!(release_nonce(&mut row, "a"));
    assert!(claim_nonce(&mut row, "b", MINUTE));
    assert!(finalize_nonce(&mut row, "b", 2 * MINUTE));
    assert_eq!(row.consumed_at, Some(2 * MINUTE));
    assert_eq!(row.claim_id, None);
    assert!(!finalize_nonce(&mut row, "b", 2 * MINUTE));
}

#[test]
fn expired_nonce_claims_can_be_taken_over() {
    let mut row = nonce(100 * MINUTE);
    assert!(claim_nonce(&mut row, "a", 0));
    assert!(claim_nonce(&mut row, "b", 5 * MINUTE));
    assert_eq!(row.claim_id.as_deref(), Some("b"));
}

#[test]
fn deferred_credentials_are_delivered_once() {
    let state = DeferredState { ready_at: 10, expires_at: 100, consumed_at: None, claim_id: None, claim_expires_at: None };
    let mut early = state.clone();
    assert!(!consume_ready_deferred(&mut early, 5));
    let mut direct = state.clone();
    assert!(consume_ready_deferred(&mut direct, 20));
    assert_eq!(direct.consumed_at, Some(20));
    assert!(!consume_ready_deferred(&mut direct, 21));
    let mut claimed = state.clone();
    assert!(claim_ready_deferred(&mut claimed, "x", 20));
    assert!(!claim_ready_deferred(&mut claimed, "y", 21));
    assert!(!finalize_deferred(&mut claimed, "y", 22));
    assert!(release_deferred(&mut claimed, "x"));
    assert!(claim_ready_deferred(&mut claimed, "y", 23));
    assert!(finalize_deferred(&mut claimed, "y", 24));
    assert_eq!(claimed.consumed_at, Some(24));
    assert!(!release_deferred(&mut claimed, "y"));
}

#[test]
fn payload_framing() {
    let nonce = [3u8; 12];
    let protected = frame_protected_payload(&nonce, b"cipher");
    assert_eq!(split_protected_payload(&protected), Some((nonce, b"cipher".to_vec())));
    assert_eq!(split_protected_payload(&protected[..11]), None);
    assert_eq!(split_protected_payload(&protected[..12]), Some((nonce, Vec::new())));
}

#[test]
fn stored_names_and_statuses() {
    assert_eq!(response_encoding_name(CredentialResponseEncoding::Json), "json");
    assert_eq!(response_encoding_name(CredentialResponseEncoding::Jwt), "jwt");
    assert_eq!(parse_response_encoding("jwt"), Ok(CredentialResponseEncoding::Jwt));
    assert_eq!(parse_response_encoding("cbor"), Err(CredentialStoreError::InvalidTransition));
    assert_eq!(notification_event(NotificationEvent::CredentialAccepted), "credential_accepted");
    assert_eq!(notification_event(NotificationEvent::CredentialFailure), "credential_failure");
    assert_eq!(notification_event(NotificationEvent::CredentialDeleted), "credential_deleted");
    assert_eq!(stored_response_status(200), Ok(200));
    assert_eq!(stored_response_status(202), Ok(202));
    assert_eq!(stored_response_status(201), Err(CredentialStoreError::InvalidTransition));
    assert_eq!(stored_response_status(-1), Err(CredentialStoreError::InvalidTransition));
    assert_eq!(response_status_column(202), Ok(202));
    assert_eq!(response_status_column(40000), Err(CredentialStoreError::InvalidTransition));
}
