use nazo_postgres::audit_ledger::{
    check_inflight_digest, check_inflight_members, has_inflight_batch, inflight_gate,
    plan_fresh_batch, require_batch_failure_recorded, require_current_outbox_claim,
    require_fresh_append, require_privileges, validate_claim_arguments, validate_event,
    validate_event_for_transaction, validate_payload_size, AuditBatchCandidate, AuditChainHead,
    SecurityAuditBatchClaim, SecurityAuditEvent, MIN_ENVELOPE_BYTES,
};
use nazo_postgres::audit_ledger::{batch_lease_of, claimed_fresh_batch, reclaimed_batch, AnchorBatchColumns};
use nazo_postgres::error::RepositoryError;

fn event(payload: &[u8]) -> SecurityAuditEvent {
    SecurityAuditEvent {
        event_id: 1,
        event_type: "login".to_owned(),
        event_category: "authentication".to_owned(),
        payload: payload.to_vec(),
        occurred_at: 0,
    }
}

fn fresh(id: u128, payload: &str) -> AuditBatchCandidate {
    AuditBatchCandidate {
        event_id: id,
        sequence: None,
        event_type: "login".to_owned(),
        event_category: "authentication".to_owned(),
        payload_canonical: payload.to_owned(),
        occurred_at: 0,
        previous_hash: None,
        event_hash: None,
    }
}

fn chained(id: u128, sequence: i64) -> AuditBatchCandidate {
    AuditBatchCandidate {
        sequence: Some(sequence),
        previous_hash: Some(vec![sequence as u8; 32]),
        event_hash: Some(vec![sequence as u8 + 1; 32]),
        ..fresh(id, "{}")
    }
}

fn head() -> AuditChainHead {
    AuditChainHead {
        last_sequence: 2,
        last_hash: vec![3; 32],
        anchor_sequence: Some(0),
        batch_first_sequence: Some(1),
        batch_last_sequence: Some(2),
        batch_event_count: Some(2),
        batch_digest: None,
        batch_attempts: 0,
        batch_available_at: None,
        batch_locked_until: None,
        batch_blocked_reason: None,
    }
}

#[test]
fn events_are_validated() {
    assert_eq!(validate_event(&event(b"{\"a\":1}")), Ok(()));
    assert!(matches!(validate_event(&event(b"[1]")), Err(RepositoryError::Unexpected(_))));
    let mut nil = event(b"{}");
    nil.event_id = 0;
    assert!(validate_event(&nil).is_err());
    let mut bad_type = event(b"{}");
    bad_type.event_type = "Login".to_owned();
    assert!(validate_event(&bad_type).is_err());
    assert_eq!(validate_payload_size(&event(b"{}"), 2), Ok(()));
    assert!(validate_payload_size(&event(b"{ }"), 2).is_err());
    assert!(validate_event_for_transaction(&event(b"{\"a\":1}"), 3).is_err());
}

#[test]
fn ledger_guards() {
    assert_eq!(require_current_outbox_claim(true), Ok(()));
    assert!(matches!(require_current_outbox_claim(false), Err(RepositoryError::Consistency(_))));
    assert!(matches!(require_batch_failure_recorded(false), Err(RepositoryError::Consistency(_))));
    assert!(matches!(require_fresh_append(false), Err(RepositoryError::Unexpected(_))));
    assert!(matches!(require_privileges(false), Err(RepositoryError::Consistency(_))));
    assert_eq!(validate_claim_arguments("dep", 10, MIN_ENVELOPE_BYTES, 30), Ok(()));
    assert!(validate_claim_arguments("dep", 0, MIN_ENVELOPE_BYTES, 30).is_err());
    assert!(validate_claim_arguments("", 10, MIN_ENVELOPE_BYTES, 30).is_err());
    assert!(validate_claim_arguments("dep", 10, MIN_ENVELOPE_BYTES - 1, 30).is_err());
}

#[test]
fn fresh_batches_chain_new_events() {
    let rows = vec![chained(1, 5), fresh(2, "{}"), fresh(3, "{}")];
    let hasher = |sequence: i64, previous: &[u8], row: &AuditBatchCandidate| {
        let mut hash = previous.to_vec();
        hash[0] = sequence as u8;
        hash[1] = row.event_id as u8;
        hash
    };
    let plan = plan_fresh_batch(&rows, 5, &vec![9; 32], MIN_ENVELOPE_BYTES, &hasher).expect("plan");
    assert_eq!(plan.deliveries.len(), 3);
    assert_eq!(plan.new_positions, vec![1, 2]);
    assert_eq!(plan.new_event_ids, vec![2, 3]);
    assert_eq!(plan.deliveries[0].sequence, 5);
    assert_eq!(plan.deliveries[1].sequence, 6);
    assert_eq!(plan.deliveries[1].previous_hash, vec![9; 32]);
    assert_eq!(plan.deliveries[2].sequence, 7);
    assert_eq!(plan.deliveries[2].previous_hash, plan.deliveries[1].event_hash);
    let empty = plan_fresh_batch(&[], 0, &vec![0; 32], MIN_ENVELOPE_BYTES, &hasher).expect("empty plan");
    assert!(empty.deliveries.is_empty());
    assert!(empty.new_positions.is_empty());
}

#[test]
fn fresh_batches_respect_the_envelope() {
    let big = "x".repeat(70 * 1024);
    let rows = vec![fresh(1, &big), fresh(2, &big)];
    let hasher = |_: i64, previous: &[u8], _: &AuditBatchCandidate| previous.to_vec();
    let plan = plan_fresh_batch(&rows, 0, &vec![0; 32], MIN_ENVELOPE_BYTES, &hasher).expect("plan");
    assert_eq!(plan.deliveries.len(), 1);
}

#[test]
fn an_event_larger_than_the_envelope_is_refused() {
    let huge = "x".repeat(MIN_ENVELOPE_BYTES as usize);
    let rows = vec![fresh(1, &huge), fresh(2, "{}")];
    let hasher = |_: i64, previous: &[u8], _: &AuditBatchCandidate| previous.to_vec();
    match plan_fresh_batch(&rows, 0, &vec![0; 32], MIN_ENVELOPE_BYTES, &hasher) {
        Err(RepositoryError::Unexpected(message)) => {
            assert_eq!(message, "security audit event exceeds the committed envelope bound")
        }
        other => panic!("unexpected {:?}", other.map(|plan| plan.deliveries.len())),
    }
}

#[test]
fn inflight_batches() {
    assert!(has_inflight_batch(&head()));
    assert!(inflight_gate(&head(), 0).is_none());
    let mut blocked = head();
    blocked.batch_blocked_reason = Some("poison".to_owned());
    assert!(matches!(inflight_gate(&blocked, 0), Some(SecurityAuditBatchClaim::Blocked { reason }) if reason == "poison"));
    let mut leased = head();
    leased.batch_locked_until = Some(10);
    assert!(matches!(inflight_gate(&leased, 5), Some(SecurityAuditBatchClaim::Busy)));
    assert!(inflight_gate(&leased, 10).is_none());
    let members = check_inflight_members(&head(), &[chained(1, 1), chained(2, 2)]).expect("members");
    assert_eq!(members.event_count, 2);
    assert_eq!(members.previous_hash, vec![1; 32]);
    assert_eq!(members.last_hash, vec![3; 32]);
    assert!(check_inflight_members(&head(), &[chained(1, 1)]).is_err());
    assert!(check_inflight_members(&head(), &[chained(1, 1), chained(2, 3)]).is_err());
    assert_eq!(check_inflight_digest(&None, &vec![1]), Ok(()));
    assert_eq!(check_inflight_digest(&Some(vec![1, 2]), &vec![1, 2]), Ok(()));
    assert!(check_inflight_digest(&Some(vec![1, 2]), &vec![1, 3]).is_err());
}

fn batch_columns(last: Option<i64>) -> AnchorBatchColumns {
    AnchorBatchColumns {
        batch_first_sequence: None,
        batch_last_sequence: last,
        batch_event_count: Some(7),
        batch_generation: 3,
        batch_attempts: 2,
        batch_available_at: Some(100),
        batch_locked_until: None,
        batch_last_error: Some("receiver timeout".to_owned()),
        batch_blocked_reason: None,
    }
}

#[test]
fn anchor_health_reports_a_lease_only_for_an_inflight_batch() {
    assert!(batch_lease_of(batch_columns(None)).is_none());
    let lease = batch_lease_of(batch_columns(Some(41))).expect("lease");
    assert_eq!(lease.first_sequence, 0);
    assert_eq!(lease.last_sequence, 41);
    assert_eq!(lease.event_count, 7);
    assert_eq!(lease.generation, 3);
    assert_eq!(lease.attempts, 2);
    assert_eq!(lease.available_at, Some(100));
    assert_eq!(lease.locked_until, None);
    assert_eq!(lease.last_error.as_deref(), Some("receiver timeout"));
    assert_eq!(lease.blocked_reason, None);
}

#[test]
fn reclaiming_a_committed_batch_returns_it_unchanged() {
    let rows = vec![fresh(1, "{}"), fresh(2, "{\"a\":1}")];
    let hasher = |sequence: i64, _: &[u8], _: &AuditBatchCandidate| vec![sequence as u8; 32];
    let plan = plan_fresh_batch(&rows, 10, &vec![7; 32], MIN_ENVELOPE_BYTES, &hasher).expect("plan");
    let committed: Vec<AuditBatchCandidate> = plan
        .deliveries
        .iter()
        .map(|d| AuditBatchCandidate {
            event_id: d.event_id,
            sequence: Some(d.sequence),
            event_type: d.event_type.clone(),
            event_category: d.event_category.clone(),
            payload_canonical: d.payload_canonical.clone(),
            occurred_at: d.occurred_at,
            previous_hash: Some(d.previous_hash.clone()),
            event_hash: Some(d.event_hash.clone()),
        })
        .collect();
    let lease = AuditChainHead {
        anchor_sequence: Some(10),
        batch_first_sequence: Some(11),
        batch_last_sequence: Some(12),
        batch_event_count: Some(2),
        ..head()
    };
    let members = check_inflight_members(&lease, &committed).expect("members");
    assert_eq!(members.first_sequence, 11);
    assert_eq!(members.last_sequence, 12);
    assert_eq!(members.event_count, 2);
    assert_eq!(members.previous_hash, vec![7; 32]);
    assert_eq!(members.last_hash, vec![12; 32]);
    for (got, planned) in members.deliveries.iter().zip(plan.deliveries.iter()) {
        assert_eq!(got.event_id, planned.event_id);
        assert_eq!(got.sequence, planned.sequence);
        assert_eq!(got.payload_canonical, planned.payload_canonical);
        assert_eq!(got.previous_hash, planned.previous_hash);
        assert_eq!(got.event_hash, planned.event_hash);
    }
}

#[test]
fn claimed_and_reclaimed_batches_agree() {
    let rows = vec![fresh(1, "{}"), fresh(2, "{\"a\":1}")];
    let hasher = |sequence: i64, _: &[u8], _: &AuditBatchCandidate| vec![sequence as u8; 32];
    let plan = plan_fresh_batch(&rows, 10, &vec![7; 32], MIN_ENVELOPE_BYTES, &hasher).expect("plan");
    let committed: Vec<AuditBatchCandidate> = plan
        .deliveries
        .iter()
        .map(|d| AuditBatchCandidate {
            event_id: d.event_id,
            sequence: Some(d.sequence),
            event_type: d.event_type.clone(),
            event_category: d.event_category.clone(),
            payload_canonical: d.payload_canonical.clone(),
            occurred_at: d.occurred_at,
            previous_hash: Some(d.previous_hash.clone()),
            event_hash: Some(d.event_hash.clone()),
        })
        .collect();
    let claimed = claimed_fresh_batch(plan, 4, vec![1, 2, 3]);
    assert_eq!(claimed.first_sequence, 11);
    assert_eq!(claimed.last_sequence, 12);
    assert_eq!(claimed.previous_hash, vec![7; 32]);
    assert_eq!(claimed.last_hash, vec![12; 32]);
    assert_eq!(claimed.attempts, 0);
    assert_eq!(claimed.generation, 4);
    let lease = AuditChainHead {
        anchor_sequence: Some(10),
        batch_first_sequence: Some(11),
        batch_last_sequence: Some(12),
        batch_event_count: Some(2),
        batch_digest: Some(vec![1, 2, 3]),
        batch_attempts: 3,
        ..head()
    };
    let members = check_inflight_members(&lease, &committed).expect("members");
    let reclaimed =
        reclaimed_batch(members, 5, lease.batch_attempts, &lease.batch_digest, vec![1, 2, 3]).expect("batch");
    assert_eq!(reclaimed.first_sequence, claimed.first_sequence);
    assert_eq!(reclaimed.last_sequence, claimed.last_sequence);
    assert_eq!(reclaimed.previous_hash, claimed.previous_hash);
    assert_eq!(reclaimed.last_hash, claimed.last_hash);
    assert_eq!(reclaimed.digest, claimed.digest);
    assert_eq!(reclaimed.attempts, 3);
    assert_eq!(reclaimed.generation, 5);
    assert_eq!(reclaimed.deliveries.len(), claimed.deliveries.len());
    let members = check_inflight_members(&lease, &committed).expect("members");
    match reclaimed_batch(members, 5, 3, &lease.batch_digest, vec![9]) {
        Err(RepositoryError::Unexpected(message)) => {
            assert_eq!(message, "security audit batch content changed under the lease")
        }
        other => panic!("unexpected {:?}", other.map(|b| b.generation)),
    }
}
