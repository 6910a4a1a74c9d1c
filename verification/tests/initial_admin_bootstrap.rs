use nazo_postgres::error::RepositoryError;
use nazo_postgres::initial_admin_bootstrap::{create_initial_admin, installed_row};
use nazo_postgres::initial_admin_bootstrap::{
    admin_username, confirm_replayed_claim, decide_claim, ensure_claim, hash_value, record_claim,
    BootstrapRow, BootstrapWrite, ClaimStep, InitialAdminBootstrapState, InitialAdminClaimOutcome,
};

fn installed(token_hash: &str, expires_at: i64) -> BootstrapRow {
    BootstrapRow {
        token_hash: token_hash.to_owned(),
        expires_at,
        consumed_at: None,
        request_id: None,
        request_email_hash: None,
        claimed_user_id: None,
        claim_result: None,
        receipt_version: None,
        claimed_at: None,
    }
}

#[test]
fn hash_value_is_lowercase_sha256_hex() {
    assert_eq!(
        hash_value("abc"),
        "ba7816bf8f01cfea414140de5dae2223b00361a396177a9cb410ff61f20015ad"
    );
}

#[test]
fn ensure_claim_installs_when_nothing_is_there() {
    assert_eq!(
        ensure_claim(None, false, "t", 100, 10),
        (BootstrapWrite::Install, InitialAdminBootstrapState::Ready { expires_at: 100 })
    );
    assert_eq!(
        ensure_claim(None, true, "t", 100, 10),
        (BootstrapWrite::Delete, InitialAdminBootstrapState::Closed)
    );
}

#[test]
fn ensure_claim_respects_live_tokens() {
    let row = installed("mine", 50);
    assert_eq!(
        ensure_claim(Some(&row), false, "mine", 100, 10),
        (BootstrapWrite::Keep, InitialAdminBootstrapState::Ready { expires_at: 50 })
    );
    assert_eq!(
        ensure_claim(Some(&row), false, "other", 100, 10),
        (BootstrapWrite::Keep, InitialAdminBootstrapState::OwnedByAnotherInstance { expires_at: 50 })
    );
    assert_eq!(
        ensure_claim(Some(&row), false, "other", 100, 60),
        (BootstrapWrite::Install, InitialAdminBootstrapState::Ready { expires_at: 100 })
    );
}

#[test]
fn claims_create_once_and_replay() {
    let row = installed("token", 50);
    let email_hash = hash_value("admin@example.com");
    assert_eq!(
        decide_claim(Some(&row), "req-1", "token", &email_hash, false, false, 10),
        ClaimStep::CreateAdministrator
    );
    assert_eq!(
        decide_claim(Some(&row), "req-1", "token", &email_hash, false, true, 10),
        ClaimStep::Respond(InitialAdminClaimOutcome::EmailConflict)
    );
    assert_eq!(
        decide_claim(Some(&row), "req-1", "token", &email_hash, true, false, 10),
        ClaimStep::Respond(InitialAdminClaimOutcome::Closed)
    );
    assert_eq!(
        decide_claim(Some(&row), "req-1", "wrong", &email_hash, false, false, 10),
        ClaimStep::Respond(InitialAdminClaimOutcome::InvalidOrExpired)
    );
    assert_eq!(
        decide_claim(Some(&row), "req-1", "token", &email_hash, false, false, 50),
        ClaimStep::Respond(InitialAdminClaimOutcome::InvalidOrExpired)
    );
    let claimed = record_claim(row, "req-1", &email_hash, 77, 20);
    assert_eq!(
        decide_claim(Some(&claimed), "req-1", "token", &email_hash, true, true, 99),
        ClaimStep::ConfirmReplay(77)
    );
    assert_eq!(
        decide_claim(Some(&claimed), "req-2", "token", &email_hash, false, false, 20),
        ClaimStep::Respond(InitialAdminClaimOutcome::IdempotencyConflict)
    );
    assert_eq!(
        decide_claim(Some(&claimed), "req-1", "other-token", &email_hash, false, false, 20),
        ClaimStep::Respond(InitialAdminClaimOutcome::InvalidOrExpired)
    );
    assert_eq!(
        ensure_claim(Some(&claimed), false, "t", 100, 10),
        (
            BootstrapWrite::Keep,
            InitialAdminBootstrapState::Claimed { expires_at: 50, expected_token_hash: "token".to_owned() }
        )
    );
}

#[test]
fn claims_without_row_or_receipt() {
    assert_eq!(
        decide_claim(None, "r", "t", "e", false, false, 0),
        ClaimStep::Respond(InitialAdminClaimOutcome::InvalidOrExpired)
    );
    let mut consumed = installed("t", 50);
    consumed.consumed_at = Some(5);
    assert_eq!(
        decide_claim(Some(&consumed), "r", "t", "e", false, false, 0),
        ClaimStep::Respond(InitialAdminClaimOutcome::Closed)
    );
    assert_eq!(
        ensure_claim(Some(&consumed), false, "t", 100, 0),
        (BootstrapWrite::Keep, InitialAdminBootstrapState::Closed)
    );
}

#[test]
fn replayed_claims_need_their_audit_event() {
    assert_eq!(
        confirm_replayed_claim(1, "req", 9, "a@example.com"),
        Ok(InitialAdminClaimOutcome::Created {
            request_id: "req".to_owned(),
            id: 9,
            email: "a@example.com".to_owned()
        })
    );
    assert_eq!(confirm_replayed_claim(0, "req", 9, "a@example.com"), Err(RepositoryError::NotFound));
    assert_eq!(confirm_replayed_claim(2, "req", 9, "a@example.com"), Err(RepositoryError::NotFound));
}

#[test]
fn admin_username_uses_the_simple_uuid() {
    assert_eq!(
        admin_username(0x0123456789abcdef0011223344556677),
        "admin_0123456789abcdef0011223344556677"
    );
}

#[test]
fn installing_writes_a_fresh_row_that_later_installs_keep() {
    let row = installed_row("h1", 500);
    assert_eq!(row.token_hash, "h1");
    assert_eq!(row.expires_at, 500);
    assert!(row.consumed_at.is_none() && row.request_id.is_none() && row.claimed_at.is_none());
    assert_eq!(
        ensure_claim(Some(&row), false, "h1", 900, 100),
        (BootstrapWrite::Keep, InitialAdminBootstrapState::Ready { expires_at: 500 })
    );
    assert_eq!(
        ensure_claim(Some(&row), false, "h2", 900, 100),
        (BootstrapWrite::Keep, InitialAdminBootstrapState::OwnedByAnotherInstance { expires_at: 500 })
    );
}

#[test]
fn a_claim_creates_a_verified_level_one_administrator() {
    let id = 0x018f3a4e_1b2c_7d3e_8f40_123456789abcu128;
    let creation = create_initial_admin(
        installed_row("h1", 500),
        1,
        2,
        3,
        "req-1",
        "root@example.com",
        "$argon2id$hash",
        id,
        200,
    );
    let admin = &creation.administrator;
    assert_eq!(admin.id, id);
    assert_eq!((admin.tenant_id, admin.realm_id, admin.organization_id), (1, 2, 3));
    assert_eq!(admin.username, "admin_018f3a4e1b2c7d3e8f40123456789abc");
    assert_eq!(admin.email, "root@example.com");
    assert_eq!(admin.password_hash, "$argon2id$hash");
    assert!(admin.email_verified);
    assert_eq!(admin.role, "admin");
    assert_eq!(admin.admin_level, 1);
    let receipt = &creation.receipt;
    assert_eq!(receipt.consumed_at, Some(200));
    assert_eq!(receipt.claimed_at, Some(200));
    assert_eq!(receipt.request_id.as_deref(), Some("req-1"));
    assert_eq!(receipt.request_email_hash, Some(hash_value("root@example.com")));
    assert_eq!(receipt.claimed_user_id, Some(id));
    assert_eq!(receipt.claim_result.as_deref(), Some("created"));
    assert_eq!(receipt.receipt_version, Some(1));
    assert_eq!(
        creation.outcome,
        InitialAdminClaimOutcome::Created {
            request_id: "req-1".to_owned(),
            id,
            email: "root@example.com".to_owned()
        }
    );
}
