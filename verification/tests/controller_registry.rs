use nazo_postgres::controller_registry::{
    admits, approval_token_digest, approval_transport, check_approval_redemption,
    check_revocation, check_rotation, check_rotation_deployment, lowest_free_slot_index,
    plan_slot_creation, prepare_identity_approval, validate_kid, validate_kid_binding,
    validate_label, validate_slot_input, ApprovalRecord, CommitWithApprovalError,
    ControllerIdentityAction, ControllerRegistryError, ControllerSlotStatus, IdentityApprovalError,
    RotateControllerKey, StoredControllerSlot, CONTROLLER_KEY_TTL_SECONDS,
};
use nazo_postgres::controller_registry::slot_insert_error;
use nazo_postgres::digest::key_id_for_public_key;
use nazo_postgres::error::{StoreFailure, StoreFailureKind};

const DIGEST: &str = "ba7816bf8f01cfea414140de5dae2223b00361a396177a9cb410ff61f20015ad";

fn slot(index: i16, status: ControllerSlotStatus, expires_at: i64) -> StoredControllerSlot {
    StoredControllerSlot {
        deployment_id: "dep".to_owned(),
        controller_id: format!("c{index}"),
        label: "laptop".to_owned(),
        kid: "k".to_owned(),
        public_key: vec![1; 32],
        slot_index: index,
        issued_at: 0,
        expires_at,
        last_used_at: None,
        status,
        revoked_at: None,
        created_at: 0,
        updated_at: 0,
    }
}

fn approval(consumed_at: Option<i64>) -> ApprovalRecord {
    ApprovalRecord {
        expires_at: 100,
        consumed_at,
        deployment_id: "dep".to_owned(),
        action: "rotate".to_owned(),
        action_sha256: DIGEST.to_owned(),
    }
}

#[test]
fn actions_round_trip() {
    for action in [
        ControllerIdentityAction::Bind,
        ControllerIdentityAction::Add,
        ControllerIdentityAction::Rotate,
        ControllerIdentityAction::Revoke,
        ControllerIdentityAction::RecoveryRootRotate,
    ] {
        assert_eq!(ControllerIdentityAction::parse(action.as_str()), Some(action));
    }
    assert_eq!(ControllerIdentityAction::Rotate.as_str(), "rotate");
    assert_eq!(ControllerIdentityAction::RecoveryRootRotate.as_str(), "recovery-root-rotate");
    assert_eq!(ControllerIdentityAction::parse("delete"), None);
    assert_eq!(ControllerSlotStatus::from_str("revoked"), Some(ControllerSlotStatus::Revoked));
    assert_eq!(ControllerSlotStatus::from_str("paused"), None);
}

#[test]
fn approvals_are_single_use_and_bound() {
    let ok = approval(None);
    assert!(check_approval_redemption(Some(&ok), "dep", ControllerIdentityAction::Rotate, DIGEST, 50).is_ok());
    assert!(matches!(
        check_approval_redemption(None, "dep", ControllerIdentityAction::Rotate, DIGEST, 50),
        Err(IdentityApprovalError::UnknownToken)
    ));
    assert!(matches!(
        check_approval_redemption(Some(&approval(Some(10))), "dep", ControllerIdentityAction::Rotate, DIGEST, 50),
        Err(IdentityApprovalError::Replayed)
    ));
    assert!(matches!(
        check_approval_redemption(Some(&ok), "dep", ControllerIdentityAction::Rotate, DIGEST, 100),
        Err(IdentityApprovalError::Expired)
    ));
    assert!(matches!(
        check_approval_redemption(Some(&ok), "other", ControllerIdentityAction::Rotate, DIGEST, 50),
        Err(IdentityApprovalError::ActionMismatch)
    ));
    assert!(matches!(
        check_approval_redemption(Some(&ok), "dep", ControllerIdentityAction::Revoke, DIGEST, 50),
        Err(IdentityApprovalError::ActionMismatch)
    ));
    assert!(matches!(approval_transport("down".to_owned()), IdentityApprovalError::Transport(m) if m == "down"));
}

#[test]
fn slot_placement() {
    let one = [slot(0, ControllerSlotStatus::Active, 10), slot(2, ControllerSlotStatus::Active, 10)];
    assert_eq!(lowest_free_slot_index(&one), Some(1));
    assert_eq!(lowest_free_slot_index(&[]), Some(0));
    let placement = plan_slot_creation(&one, 5).expect("placed");
    assert_eq!(placement.slot_index, 1);
    assert_eq!(placement.issued_at, 5);
    assert_eq!(placement.expires_at, 5 + CONTROLLER_KEY_TTL_SECONDS * 1_000_000);
    let full = [
        slot(0, ControllerSlotStatus::Active, 10),
        slot(1, ControllerSlotStatus::Active, 10),
        slot(2, ControllerSlotStatus::Active, 10),
    ];
    match plan_slot_creation(&full, 5) {
        Err(ControllerRegistryError::SlotLimit(summaries)) => {
            assert_eq!(summaries.len(), 3);
            assert_eq!(summaries[1].controller_id, "c1");
        }
        other => panic!("unexpected: {other:?}"),
    }
}

#[test]
fn admission_rotation_and_revocation() {
    assert!(admits(&slot(0, ControllerSlotStatus::Active, 10), 9));
    assert!(!admits(&slot(0, ControllerSlotStatus::Active, 10), 10));
    assert!(!admits(&slot(0, ControllerSlotStatus::Revoked, 10), 1));
    assert!(check_rotation(&slot(0, ControllerSlotStatus::Active, 10), 0).is_ok());
    assert!(matches!(
        check_rotation(&slot(0, ControllerSlotStatus::Active, 10), 1),
        Err(ControllerRegistryError::DuplicateKid)
    ));
    assert!(matches!(
        check_rotation(&slot(0, ControllerSlotStatus::Revoked, 10), 0),
        Err(ControllerRegistryError::AlreadyRevoked)
    ));
    assert!(check_revocation(&slot(0, ControllerSlotStatus::Active, 10)).is_ok());
    assert!(matches!(
        check_revocation(&slot(0, ControllerSlotStatus::Revoked, 10)),
        Err(ControllerRegistryError::AlreadyRevoked)
    ));
}

#[test]
fn identity_input_checks() {
    let key = [5u8; 32];
    let kid = key_id_for_public_key(&key);
    assert!(validate_kid(&kid).is_ok());
    assert!(validate_kid("short").is_err());
    assert!(validate_kid(&format!("{}=", &kid[..42])).is_err());
    assert!(validate_kid_binding(&kid, &key).is_ok());
    assert!(validate_kid_binding(&kid, &[6u8; 32]).is_err());
    assert!(validate_label("laptop").is_ok());
    assert!(validate_label("").is_err());
    assert!(validate_label("a\nb").is_err());
    assert!(validate_label(&"x".repeat(129)).is_err());
    assert!(validate_slot_input(true, "laptop", &kid, &key).is_ok());
    assert!(matches!(
        validate_slot_input(false, "laptop", &kid, &key),
        Err(ControllerRegistryError::InvalidIdentity(_))
    ));
}

#[test]
fn rotations_stay_in_their_deployment() {
    let rotation = RotateControllerKey {
        deployment_id: "dep".to_owned(),
        controller_id: "c0".to_owned(),
        label: "l".to_owned(),
        kid: "k".to_owned(),
        public_key: [0; 32],
    };
    assert!(check_rotation_deployment(&rotation, "dep").is_ok());
    assert!(matches!(
        check_rotation_deployment(&rotation, "other"),
        Err(CommitWithApprovalError::Approval(IdentityApprovalError::ActionMismatch))
    ));
}

#[test]
fn issued_approvals() {
    let (issued, token_hash) =
        prepare_identity_approval(true, ControllerIdentityAction::Add, DIGEST, 1_000).expect("issued");
    assert_eq!(issued.action, ControllerIdentityAction::Add);
    assert_eq!(issued.expires_at, 1_000 + 600 * 1_000_000);
    assert_eq!(issued.token.len(), 43);
    assert_eq!(token_hash, approval_token_digest(&issued.token));
    assert!(prepare_identity_approval(false, ControllerIdentityAction::Add, DIGEST, 0).is_err());
    assert!(prepare_identity_approval(true, ControllerIdentityAction::Add, "ABC", 0).is_err());
}

#[test]
fn slot_insert_unique_violation_is_a_duplicate_kid() {
    let f = |kind| StoreFailure { kind, message: "insert failed".to_owned() };
    assert!(matches!(
        slot_insert_error(f(StoreFailureKind::UniqueViolation)),
        ControllerRegistryError::DuplicateKid
    ));
    match slot_insert_error(f(StoreFailureKind::Other)) {
        ControllerRegistryError::Transport(message) => assert_eq!(message, "insert failed"),
        other => panic!("unexpected {other:?}"),
    }
}

#[test]
fn registry_failures_display_their_message() {
    assert_eq!(IdentityApprovalError::UnknownToken.message(), "unknown approval token");
    assert_eq!(IdentityApprovalError::Replayed.message(), "approval token already consumed");
    assert_eq!(IdentityApprovalError::Expired.message(), "approval token expired");
    assert_eq!(IdentityApprovalError::ActionMismatch.message(), "approval does not cover this action");
    assert_eq!(IdentityApprovalError::Transport("db down".to_owned()).message(), "db down");
    assert_eq!(ControllerRegistryError::SlotLimit(Vec::new()).message(), "CONTROLLER_SLOT_LIMIT");
    assert_eq!(ControllerRegistryError::UnknownController.message(), "unknown controller slot");
    assert_eq!(ControllerRegistryError::AlreadyRevoked.message(), "controller slot already revoked");
    assert_eq!(ControllerRegistryError::DuplicateKid.message(), "controller kid already registered");
    assert_eq!(ControllerRegistryError::InvalidIdentity("bad kid".to_owned()).message(), "bad kid");
    assert_eq!(ControllerRegistryError::Transport("io".to_owned()).message(), "io");
    assert_eq!(
        CommitWithApprovalError::Approval(IdentityApprovalError::Expired).message(),
        "approval token expired"
    );
    assert_eq!(
        CommitWithApprovalError::Mutation(ControllerRegistryError::DuplicateKid).message(),
        "controller kid already registered"
    );
    assert_eq!(CommitWithApprovalError::Transport("io".to_owned()).message(), "io");
}
