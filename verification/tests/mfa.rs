use nazo_postgres::error::{RepositoryError, StoreFailure, StoreFailureKind};
use nazo_postgres::mfa::{
    accept_totp_plaintext, advance_totp_step, backup_code_audit, backup_code_candidates,
    check_confirmation_backup_codes, decide_totp_confirmation, decide_totp_consumption,
    frame_totp_envelope, mfa_store_error, open_totp_envelope, plan_totp_enrollment,
    remembered_device_match, require_totp_keys, totp_aad, totp_advance_audit, totp_audit,
    validate_backup_hash_count, validate_totp_secret, BackupCodeCandidate, MfaAuditOutcome,
    MfaAuditReason, RememberedDeviceRow, TotpEnrollmentWrite, TotpKeyIds, TotpKeySlot,
    TotpSecretError, TotpVerificationOutcome,
};

fn keys() -> TotpKeyIds {
    TotpKeyIds { current: "k2".to_owned(), previous: Some("k1".to_owned()) }
}

#[test]
fn totp_aad_layout() {
    let aad = totp_aad(1, 2, "key");
    let mut expected = b"nazo-totp-seed-v1".to_vec();
    expected.extend_from_slice(&1u128.to_be_bytes());
    expected.extend_from_slice(&2u128.to_be_bytes());
    expected.extend_from_slice(&3u64.to_be_bytes());
    expected.extend_from_slice(b"key");
    assert_eq!(aad, expected);
}

#[test]
fn envelope_round_trip_and_key_selection() {
    let nonce = [9u8; 12];
    let ciphertext = vec![7u8; 20];
    let protected = frame_totp_envelope(&nonce, &ciphertext);
    assert_eq!(protected[0], 1);
    assert_eq!(protected.len(), 33);
    let sealed = open_totp_envelope(Some(&keys()), "k1", &protected).expect("opens");
    assert_eq!(sealed.key, TotpKeySlot::Previous);
    assert_eq!(sealed.nonce, nonce);
    assert_eq!(sealed.ciphertext, ciphertext);
    let sealed = open_totp_envelope(Some(&keys()), "k2", &protected).expect("opens");
    assert_eq!(sealed.key, TotpKeySlot::Current);
}

#[test]
fn envelope_errors() {
    let protected = frame_totp_envelope(&[0u8; 12], &[1u8; 17]);
    assert_eq!(open_totp_envelope(None, "k2", &protected).unwrap_err(), TotpSecretError::KeysNotConfigured);
    assert_eq!(
        open_totp_envelope(Some(&keys()), "k9", &protected).unwrap_err(),
        TotpSecretError::UnavailableKeyVersion
    );
    assert_eq!(
        open_totp_envelope(Some(&keys()), "k2", &protected[..29]).unwrap_err(),
        TotpSecretError::MalformedEnvelope
    );
    let mut wrong_version = protected.clone();
    wrong_version[0] = 2;
    assert_eq!(
        open_totp_envelope(Some(&keys()), "k2", &wrong_version).unwrap_err(),
        TotpSecretError::MalformedEnvelope
    );
    assert!(open_totp_envelope(Some(&keys()), "k2", &protected).is_ok());
}

#[test]
fn totp_secret_length_rule() {
    assert_eq!(validate_totp_secret("JBSWY3DPEHPK3PXP"), Ok(()));
    assert_eq!(validate_totp_secret("  JBSWY3DPEHPK3PX  "), Err(TotpSecretError::LengthOutOfRange));
    assert_eq!(validate_totp_secret(&"A".repeat(129)), Err(TotpSecretError::LengthOutOfRange));
    assert_eq!(validate_totp_secret(&"A".repeat(128)), Ok(()));
    assert_eq!(accept_totp_plaintext(vec![0xff, 0xfe]), Err(TotpSecretError::NotUtf8));
    assert_eq!(accept_totp_plaintext(b"JBSWY3DPEHPK3PXP".to_vec()), Ok("JBSWY3DPEHPK3PXP".to_owned()));
}

#[test]
fn totp_error_messages() {
    assert_eq!(
        TotpSecretError::MalformedEnvelope.into_repository_error(),
        RepositoryError::Consistency("TOTP secret envelope is malformed".to_owned())
    );
    assert_eq!(
        TotpSecretError::EncryptionFailed.into_repository_error(),
        RepositoryError::Unexpected("TOTP secret encryption failed".to_owned())
    );
    assert_eq!(require_totp_keys(None), Err(TotpSecretError::KeysNotConfigured));
    assert_eq!(require_totp_keys(Some(&keys())), Ok(()));
}

#[test]
fn totp_codes_are_single_use() {
    let first = decide_totp_consumption(Some(None), Some(100));
    assert_eq!(first.outcome, TotpVerificationOutcome::Accepted);
    assert_eq!(first.record_step, Some(100));
    let replay = decide_totp_consumption(Some(Some(100)), Some(100));
    assert_eq!(replay.outcome, TotpVerificationOutcome::Replay);
    assert_eq!(replay.record_step, None);
    assert_eq!(decide_totp_consumption(Some(Some(100)), Some(99)).outcome, TotpVerificationOutcome::Replay);
    assert_eq!(decide_totp_consumption(Some(Some(100)), Some(101)).outcome, TotpVerificationOutcome::Accepted);
    assert_eq!(decide_totp_consumption(Some(None), None).outcome, TotpVerificationOutcome::Invalid);
    assert_eq!(decide_totp_consumption(None, Some(5)).outcome, TotpVerificationOutcome::Invalid);
}

#[test]
fn direct_step_advance_agrees_with_consumption() {
    assert!(advance_totp_step(Some(None), 1));
    assert!(advance_totp_step(Some(Some(1)), 2));
    assert!(!advance_totp_step(Some(Some(2)), 2));
    assert!(!advance_totp_step(None, 2));
    assert_eq!(totp_advance_audit(true), (MfaAuditOutcome::Success, MfaAuditReason::TotpAccepted));
    assert_eq!(totp_advance_audit(false), (MfaAuditOutcome::Replay, MfaAuditReason::TotpReplay));
}

#[test]
fn totp_audit_entries() {
    assert_eq!(totp_audit(TotpVerificationOutcome::Accepted), (MfaAuditOutcome::Success, MfaAuditReason::TotpAccepted));
    assert_eq!(
        totp_audit(TotpVerificationOutcome::Invalid),
        (MfaAuditOutcome::InvalidCredential, MfaAuditReason::TotpInvalid)
    );
    assert_eq!(totp_audit(TotpVerificationOutcome::Replay), (MfaAuditOutcome::Replay, MfaAuditReason::TotpReplay));
}

#[test]
fn confirmation_decisions() {
    assert_eq!(decide_totp_confirmation(false, Some(3)).outcome, TotpVerificationOutcome::Replay);
    assert_eq!(decide_totp_confirmation(true, None).outcome, TotpVerificationOutcome::Invalid);
    let accepted = decide_totp_confirmation(true, Some(3));
    assert_eq!(accepted.outcome, TotpVerificationOutcome::Accepted);
    assert_eq!(accepted.confirm_step, Some(3));
    let hashes = vec!["h".to_owned(); 10];
    assert_eq!(check_confirmation_backup_codes(&hashes, 10), Ok(()));
    assert_eq!(check_confirmation_backup_codes(&hashes[..9], 10), Err(RepositoryError::Conflict));
}

#[test]
fn backup_code_bounds() {
    let hashes = vec!["h".to_owned(); 3];
    assert_eq!(validate_backup_hash_count(&hashes, 3), Ok(()));
    assert_eq!(validate_backup_hash_count(&hashes, 2), Err(RepositoryError::Conflict));
    let rows = vec![
        BackupCodeCandidate { id: 1, hash: "a".to_owned() },
        BackupCodeCandidate { id: 2, hash: "b".to_owned() },
    ];
    assert_eq!(backup_code_candidates(rows.clone(), 2).map(|v| v.len()), Ok(2));
    assert_eq!(
        backup_code_candidates(rows, 1).map(|v| v.len()),
        Err(RepositoryError::Consistency(
            "persisted backup-code count exceeds the supported maximum".to_owned()
        ))
    );
    let empty = vec![BackupCodeCandidate { id: 3, hash: String::new() }];
    assert_eq!(
        backup_code_candidates(empty, 5).map(|v| v.len()),
        Err(RepositoryError::Consistency("persisted backup-code hash is empty".to_owned()))
    );
    assert_eq!(backup_code_audit(true), (MfaAuditOutcome::Success, MfaAuditReason::BackupCodeAccepted));
    assert_eq!(backup_code_audit(false), (MfaAuditOutcome::Replay, MfaAuditReason::BackupCodeReplay));
}

#[test]
fn enrollment_plans() {
    assert_eq!(plan_totp_enrollment(None), Ok(TotpEnrollmentWrite::Insert));
    assert_eq!(plan_totp_enrollment(Some((4, false))), Ok(TotpEnrollmentWrite::ReplacePending(4)));
    assert_eq!(plan_totp_enrollment(Some((4, true))), Err(RepositoryError::Conflict));
}

#[test]
fn remembered_devices_match_user_agent() {
    let row = |hash: Option<&str>| RememberedDeviceRow { id: 5, user_agent_hash: hash.map(str::to_owned) };
    assert_eq!(remembered_device_match(Some(row(Some("ua"))), Some("ua")), Some(5));
    assert_eq!(remembered_device_match(Some(row(None)), None), Some(5));
    assert_eq!(remembered_device_match(Some(row(Some("ua"))), None), None);
    assert_eq!(remembered_device_match(Some(row(Some("ua"))), Some("other")), None);
    assert_eq!(remembered_device_match(None, Some("ua")), None);
}

#[test]
fn mfa_store_errors() {
    let f = |kind| StoreFailure { kind, message: "m".to_owned() };
    assert_eq!(mfa_store_error(f(StoreFailureKind::NotFound)), RepositoryError::Conflict);
    assert_eq!(mfa_store_error(f(StoreFailureKind::RolledBack)), RepositoryError::Conflict);
    assert_eq!(mfa_store_error(f(StoreFailureKind::UniqueViolation)), RepositoryError::Conflict);
    assert_eq!(mfa_store_error(f(StoreFailureKind::Other)), RepositoryError::Unexpected("m".to_owned()));
    assert_eq!(
        mfa_store_error(f(StoreFailureKind::CheckViolation)),
        RepositoryError::Unexpected("m".to_owned())
    );
}
