use nazo_postgres::error::RepositoryError;
use nazo_postgres::tokens::{
    access_token_jti_digest, access_token_revocation_deadline, check_sign_count_advance,
    plan_token_revocation, revocation_write, RevocationWrite, TokenRevocationPlan,
};

#[test]
fn revocation_deadline_adds_the_clock_skew() {
    assert_eq!(access_token_revocation_deadline(1_000_000, 60), Ok(61_000_000));
}

#[test]
fn revocation_deadline_outside_the_calendar_is_refused() {
    assert_eq!(
        access_token_revocation_deadline(i64::MAX - 10, 60),
        Err(RepositoryError::Consistency(
            "access-token revocation deadline is not representable".to_owned()
        ))
    );
}

#[test]
fn revocation_facts_only_extend() {
    assert_eq!(revocation_write(None, 10), RevocationWrite::Insert);
    assert_eq!(revocation_write(Some(5), 10), RevocationWrite::Extend(10));
    assert_eq!(revocation_write(Some(10), 10), RevocationWrite::Keep);
    assert_eq!(revocation_write(Some(20), 10), RevocationWrite::Keep);
}

#[test]
fn revocation_plans() {
    assert_eq!(
        plan_token_revocation(None, Some(9), 60),
        Ok(TokenRevocationPlan { record_until: None, refresh_family: Some(9) })
    );
    assert_eq!(
        plan_token_revocation(Some(0), None, 60),
        Ok(TokenRevocationPlan { record_until: Some(60_000_000), refresh_family: None })
    );
}

#[test]
fn jti_digest_is_blake3_hex() {
    assert_eq!(
        access_token_jti_digest(""),
        "af1349b9f5f9a1a6a0404dea36dcc9499bcb25c9adc112b7cc9a93cae41f3262"
    );
}

#[test]
fn sign_counts_must_advance() {
    assert_eq!(check_sign_count_advance(0, 0), Ok(()));
    assert_eq!(check_sign_count_advance(3, 4), Ok(()));
    assert_eq!(check_sign_count_advance(3, 3), Err(RepositoryError::Conflict));
    assert_eq!(check_sign_count_advance(3, 2), Err(RepositoryError::Conflict));
    assert_eq!(check_sign_count_advance(-1, 5), Err(RepositoryError::Conflict));
    assert_eq!(check_sign_count_advance(0, 1), Ok(()));
}
