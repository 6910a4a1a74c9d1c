//! Security audit ledger: event validation, exporter argument bounds, and
//! the planning of the single in-flight export batch.

use vstd::prelude::*;
use vstd::string::StringSliceAdditionalSpecFns;

use crate::error::{consistency, unexpected, RepositoryError};
use crate::text::{is_ledger_identifier, valid_identifier};

verus! {

/// Headroom kept below the configured envelope bound for framing.
pub const ENVELOPE_HEADROOM_BYTES: i64 = 4 * 1024;
/// Conservative per-event envelope cost on top of the canonical payload.
pub const PER_EVENT_ENVELOPE_BYTES: i64 = 512;
pub const MIN_ENVELOPE_BYTES: i64 = 128 * 1024;
pub const MAX_ENVELOPE_BYTES: i64 = 1024 * 1024;

/// Whether a JSON text parses to a JSON object.
pub uninterp spec fn json_text_is_object(text: Seq<u8>) -> bool;

/// Calls `serde_json::from_slice::<serde_json::Value>` and asks `is_object`.
/// Trusted: the verdict is a function of the bytes alone (`false` for text
/// that does not parse).
#[verifier::external_body]
fn json_is_object(text: &[u8]) -> (result: bool)
    ensures
        result == json_text_is_object(text@),
{
    serde_json::from_slice::<serde_json::Value>(text).map(|value| value.is_object()).unwrap_or(false)
}

/// One security audit event as handed to the ledger.  `payload` is the
/// serialized JSON text of the event payload.
#[derive(Clone, Debug)]
pub struct SecurityAuditEvent {
    pub event_id: u128,
    pub event_type: String,
    pub event_category: String,
    pub payload: Vec<u8>,
    pub occurred_at: i64,
}

pub open spec fn event_identity_valid(event: SecurityAuditEvent) -> bool {
    &&& event.event_id != 0
    &&& is_ledger_identifier(event.event_type@)
    &&& is_ledger_identifier(event.event_category@)
    &&& json_text_is_object(event.payload@)
}

/// An event needs a non-nil id, identifier-shaped type and category, and a
/// JSON object payload.
pub fn validate_event(event: &SecurityAuditEvent) -> (result: Result<(), RepositoryError>)
    ensures
        result is Ok <==> event_identity_valid(*event),
        !event_identity_valid(*event) ==> (result matches Err(RepositoryError::Unexpected(text)) && text@
            == "security audit event has invalid identity or payload"@),
{
    if event.event_id == 0 || !valid_identifier(event.event_type.as_str()) || !valid_identifier(
        event.event_category.as_str(),
    ) || !json_is_object(event.payload.as_slice()) {
        return Err(unexpected("security audit event has invalid identity or payload"));
    }
    Ok(())
}

/// The serialized payload must stay within `max_payload_bytes`.
pub fn validate_payload_size(event: &SecurityAuditEvent, max_payload_bytes: usize) -> (result: Result<
    (),
    RepositoryError,
>)
    ensures
        result is Ok <==> event.payload@.len() <= max_payload_bytes,
        event.payload@.len() > max_payload_bytes ==> (result matches Err(RepositoryError::Unexpected(text))
            && text@ == "audit payload exceeds the ledger payload limit"@),
{
    if event.payload.len() > max_payload_bytes {
        return Err(unexpected("audit payload exceeds the ledger payload limit"));
    }
    Ok(())
}

/// Both event checks, identity first, as the ledger runs them before a write.
pub fn validate_event_for_transaction(event: &SecurityAuditEvent, max_payload_bytes: usize) -> (result:
    Result<(), RepositoryError>)
    ensures
        result is Ok <==> (event_identity_valid(*event) && event.payload@.len() <= max_payload_bytes),
        !event_identity_valid(*event) ==> (result matches Err(RepositoryError::Unexpected(text)) && text@
            == "security audit event has invalid identity or payload"@),
        event_identity_valid(*event) && event.payload@.len() > max_payload_bytes ==> (result matches Err(
            RepositoryError::Unexpected(text),
        ) && text@ == "audit payload exceeds the ledger payload limit"@),
{
    match validate_event(event) {
        Ok(()) => validate_payload_size(event, max_payload_bytes),
        Err(error) => Err(error),
    }
}

/// A ledger mutation must report that it changed the current outbox claim.
pub fn require_current_outbox_claim(changed: bool) -> (result: Result<(), RepositoryError>)
    ensures
        result is Ok <==> changed,
        !changed ==> (result matches Err(RepositoryError::Consistency(text)) && text@
            == "security audit outbox claim is stale or already terminal"@),
{
    if changed {
        Ok(())
    } else {
        Err(consistency("security audit outbox claim is stale or already terminal"))
    }
}

/// Releasing a lease must hit the current generation.
pub fn require_batch_failure_recorded(changed: bool) -> (result: Result<(), RepositoryError>)
    ensures
        result is Ok <==> changed,
        !changed ==> (result matches Err(RepositoryError::Consistency(text)) && text@
            == "security audit batch generation is stale or already settled"@),
{
    if changed {
        Ok(())
    } else {
        Err(consistency("security audit batch generation is stale or already settled"))
    }
}

/// Appending a fresh event must insert it: an existing event id is an error.
pub fn require_fresh_append(inserted: bool) -> (result: Result<(), RepositoryError>)
    ensures
        result is Ok <==> inserted,
        !inserted ==> (result matches Err(RepositoryError::Unexpected(text)) && text@
            == "security audit event already exists in the immutable ledger"@),
{
    if inserted {
        Ok(())
    } else {
        Err(unexpected("security audit event already exists in the immutable ledger"))
    }
}

/// The privilege preflight must report the requested policy satisfied.
pub fn require_privileges(policy_satisfied: bool) -> (result: Result<(), RepositoryError>)
    ensures
        result is Ok <==> policy_satisfied,
        !policy_satisfied ==> (result matches Err(RepositoryError::Consistency(text)) && text@
            == "security audit privilege preflight failed"@),
{
    if policy_satisfied {
        Ok(())
    } else {
        Err(consistency("security audit privilege preflight failed"))
    }
}

/// The safe bounds of a batch claim.
pub open spec fn claim_arguments_valid(
    deployment_id: &str,
    limit: i64,
    max_envelope_bytes: i64,
    lock_timeout_seconds: i32,
) -> bool {
    &&& 1 <= limit <= 256
    &&& MIN_ENVELOPE_BYTES <= max_envelope_bytes <= MAX_ENVELOPE_BYTES
    &&& 1 <= lock_timeout_seconds <= 3600
    &&& deployment_id@.len() > 0
    &&& deployment_id.spec_bytes().len() <= 255
}

pub fn validate_claim_arguments(
    deployment_id: &str,
    limit: i64,
    max_envelope_bytes: i64,
    lock_timeout_seconds: i32,
) -> (result: Result<(), RepositoryError>)
    ensures
        result is Ok <==> claim_arguments_valid(deployment_id, limit, max_envelope_bytes, lock_timeout_seconds),
        !claim_arguments_valid(deployment_id, limit, max_envelope_bytes, lock_timeout_seconds) ==> (result matches Err(
            RepositoryError::Unexpected(text),
        ) && text@ == "audit batch claim arguments are outside their safe bounds"@),
{
    if !(1 <= limit && limit <= 256) || !(MIN_ENVELOPE_BYTES <= max_envelope_bytes
        && max_envelope_bytes <= MAX_ENVELOPE_BYTES) || !(1 <= lock_timeout_seconds
        && lock_timeout_seconds <= 3600) || deployment_id.is_empty()
        || deployment_id.as_bytes().len() > 255 {
        return Err(unexpected("audit batch claim arguments are outside their safe bounds"));
    }
    Ok(())
}

} // verus!

verus! {

/// One pending event offered for the next export batch, in claim order
/// (already-chained leftovers first).  A chained candidate carries all of
/// sequence, previous hash and event hash; a fresh one carries none.
#[derive(Clone, Debug)]
pub struct AuditBatchCandidate {
    pub event_id: u128,
    pub sequence: Option<i64>,
    pub event_type: String,
    pub event_category: String,
    pub payload_canonical: String,
    pub occurred_at: i64,
    pub previous_hash: Option<Vec<u8>>,
    pub event_hash: Option<Vec<u8>>,
}

/// One chained event of a batch as delivered to the exporter.
#[derive(Clone, Debug)]
pub struct SecurityAuditOutboxDelivery {
    pub event_id: u128,
    pub sequence: i64,
    pub event_type: String,
    pub event_category: String,
    pub payload_canonical: String,
    pub occurred_at: i64,
    pub previous_hash: Vec<u8>,
    pub event_hash: Vec<u8>,
}

/// The events chosen for a fresh batch, and the chain links to append for
/// the ones that had no link yet.
#[derive(Clone, Debug)]
pub struct FreshBatchPlan {
    pub deliveries: Vec<SecurityAuditOutboxDelivery>,
    /// Positions in `deliveries` of the events chained by this plan.
    pub new_positions: Vec<usize>,
    pub new_event_ids: Vec<u128>,
    pub new_event_hashes: Vec<Vec<u8>>,
}

pub open spec fn candidate_cost(row: AuditBatchCandidate) -> int {
    vstd::utf8::encode_utf8(row.payload_canonical@).len() + PER_EVENT_ENVELOPE_BYTES
}

/// Envelope cost of the first `k` candidates.
pub open spec fn prefix_cost(rows: Seq<AuditBatchCandidate>, k: int) -> int
    decreases k,
{
    if k <= 0 {
        0
    } else {
        prefix_cost(rows, k - 1) + candidate_cost(rows[k - 1])
    }
}

pub open spec fn is_chained(row: AuditBatchCandidate) -> bool {
    row.sequence is Some && row.previous_hash is Some && row.event_hash is Some
}

pub open spec fn is_unchained(row: AuditBatchCandidate) -> bool {
    row.sequence is None && row.previous_hash is None && row.event_hash is None
}

/// A delivery carries its candidate's identity and content.
pub open spec fn carries_candidate(d: SecurityAuditOutboxDelivery, row: AuditBatchCandidate) -> bool {
    &&& d.event_id == row.event_id
    &&& d.event_type == row.event_type
    &&& d.event_category == row.event_category
    &&& d.payload_canonical == row.payload_canonical
    &&& d.occurred_at == row.occurred_at
}

/// A chained candidate keeps its stored link.
pub open spec fn keeps_link(d: SecurityAuditOutboxDelivery, row: AuditBatchCandidate) -> bool {
    &&& d.sequence == row.sequence->0
    &&& d.previous_hash@ == row.previous_hash->0@
    &&& d.event_hash@ == row.event_hash->0@
}

/// What the plan's chain links must satisfy for the hasher `hasher`.
pub open spec fn plan_links_valid<H: Fn(i64, &[u8], &AuditBatchCandidate) -> Vec<u8>>(
    plan: FreshBatchPlan,
    rows: Seq<AuditBatchCandidate>,
    head_sequence: i64,
    head_hash: Seq<u8>,
    hasher: H,
) -> bool {
    let k = plan.deliveries@.len();
    let pos = plan.new_positions@;
    &&& forall|i: int| 0 <= i < k ==> carries_candidate(#[trigger] plan.deliveries@[i], rows[i])
    &&& forall|i: int| 0 <= i < k ==> is_chained(rows[i]) || is_unchained(rows[i])
    &&& forall|i: int| 0 <= i < k && is_chained(rows[i]) ==> keeps_link(#[trigger] plan.deliveries@[i], rows[i])
    &&& forall|j: int| 0 <= j < pos.len() ==> (#[trigger] pos[j] as int) < k && is_unchained(rows[pos[j] as int])
    &&& forall|j1: int, j2: int| 0 <= j1 < j2 < pos.len() ==> #[trigger] pos[j1] < #[trigger] pos[j2]
    &&& forall|i: int| 0 <= i < k && is_unchained(rows[i]) ==> exists|j: int| 0 <= j < pos.len() && #[trigger] pos[j] == i
    &&& forall|j: int|
        0 <= j < pos.len() ==> {
            let d = #[trigger] plan.deliveries@[pos[j] as int];
            let previous = if j == 0 {
                head_hash
            } else {
                plan.deliveries@[pos[j - 1] as int].event_hash@
            };
            &&& d.sequence == head_sequence + j + 1
            &&& d.previous_hash@ == previous
            &&& exists|p: &[u8]| p@ == previous && call_ensures(hasher, (d.sequence, p, &rows[pos[j] as int]), d.event_hash)
        }
    &&& plan.new_event_ids@.len() == pos.len()
    &&& plan.new_event_hashes@.len() == pos.len()
    &&& forall|j: int| 0 <= j < pos.len() ==> #[trigger] plan.new_event_ids@[j] == rows[pos[j] as int].event_id
    &&& forall|j: int| 0 <= j < pos.len() ==> #[trigger] plan.new_event_hashes@[j]@ == plan.deliveries@[pos[j] as int].event_hash@
    &&& forall|i: int| 0 <= i < k ==> (#[trigger] plan.deliveries@[i]).event_hash@.len() == 32
}

/// How many candidates a fresh batch takes from position `k` on: it stops
/// before the first candidate that would push the envelope cost past
/// `budget`, or at the end.
pub open spec fn planned_len_from(rows: Seq<AuditBatchCandidate>, budget: int, k: int) -> int
    decreases rows.len() - k,
{
    if k >= rows.len() || prefix_cost(rows, k + 1) > budget {
        k
    } else {
        planned_len_from(rows, budget, k + 1)
    }
}

/// The number of candidates a fresh batch takes: the longest prefix whose
/// envelope cost fits `budget`.
pub open spec fn planned_len(rows: Seq<AuditBatchCandidate>, budget: int) -> int {
    planned_len_from(rows, budget, 0)
}

/// A candidate the planner can use: a complete link with a 32-byte hash, or
/// no link at all.
pub open spec fn row_well_formed(row: AuditBatchCandidate) -> bool {
    ||| is_chained(row) && row.event_hash->0@.len() == 32
    ||| is_unchained(row)
}

/// How many of the first `k` candidates carry no link yet.
#[verifier::opaque]
pub open spec fn unchained_count(rows: Seq<AuditBatchCandidate>, k: int) -> int
    decreases k,
{
    if k <= 0 {
        0
    } else {
        unchained_count(rows, k - 1) + if is_unchained(rows[k - 1]) { 1int } else { 0int }
    }
}

/// Every hash the hasher returns is 32 bytes long.
pub open spec fn hasher_yields_digests<H: Fn(i64, &[u8], &AuditBatchCandidate) -> Vec<u8>>(hasher: H) -> bool {
    forall|s: i64, p: &[u8], r: &AuditBatchCandidate, h: Vec<u8>| #[trigger] call_ensures(hasher, (s, p, r), h) ==> h@.len() == 32
}

proof fn lemma_planned_len_bounds(rows: Seq<AuditBatchCandidate>, budget: int, k: int)
    requires
        0 <= k <= rows.len(),
    ensures
        k <= planned_len_from(rows, budget, k) <= rows.len(),
    decreases rows.len() - k,
{
    reveal(planned_len_from);
    if k < rows.len() && prefix_cost(rows, k + 1) <= budget {
        lemma_planned_len_bounds(rows, budget, k + 1);
    }
}

/// One step of the planner's stopping rule.
proof fn lemma_planned_len_step(rows: Seq<AuditBatchCandidate>, budget: int, k: int)
    requires
        0 <= k < rows.len(),
    ensures
        prefix_cost(rows, k + 1) > budget ==> planned_len_from(rows, budget, k) == k,
        prefix_cost(rows, k + 1) <= budget ==> planned_len_from(rows, budget, k) == planned_len_from(
            rows,
            budget,
            k + 1,
        ),
{
    reveal(planned_len_from);
}

proof fn lemma_unchained_count_step(rows: Seq<AuditBatchCandidate>, k: int)
    requires
        0 <= k,
    ensures
        unchained_count(rows, k + 1) == unchained_count(rows, k) + if is_unchained(rows[k]) { 1int } else { 0int },
        unchained_count(rows, 0) == 0,
{
    reveal(unchained_count);
}

proof fn lemma_unchained_count_monotone(rows: Seq<AuditBatchCandidate>, a: int, b: int)
    requires
        0 <= a <= b,
    ensures
        unchained_count(rows, a) <= unchained_count(rows, b),
    decreases b - a,
{
    reveal(unchained_count);
    if a < b {
        lemma_unchained_count_monotone(rows, a, b - 1);
    }
}

fn copy_bytes(bytes: &Vec<u8>) -> (copy: Vec<u8>)
    ensures
        copy@ == bytes@,
{
    let copy = bytes.clone();
    assert(copy@ =~= bytes@);
    copy
}

fn is_32_bytes(bytes: &Vec<u8>) -> (result: bool)
    ensures
        result == (bytes@.len() == 32),
{
    bytes.len() == 32
}

/// Open a fresh batch over the pending candidates: take the longest prefix
/// whose envelope cost fits `max_envelope_bytes` minus headroom, keep the
/// links of already-chained candidates, and chain each fresh candidate after
/// the head (or the previous fresh one) with consecutive sequence numbers and
/// the hash `hasher` computes.  No candidates give an empty plan (nothing to
/// claim); a first candidate that alone exceeds the bound is an error.
#[verifier::rlimit(60)]
pub fn plan_fresh_batch<H: Fn(i64, &[u8], &AuditBatchCandidate) -> Vec<u8>>(
    rows: &[AuditBatchCandidate],
    head_sequence: i64,
    head_hash: &Vec<u8>,
    max_envelope_bytes: i64,
    hasher: &H,
) -> (result: Result<FreshBatchPlan, RepositoryError>)
    requires
        forall|s: i64, p: &[u8], r: &AuditBatchCandidate| hasher.requires((s, p, r)),
    ensures
        match result {
            Ok(plan) => {
                let k = plan.deliveries@.len() as int;
                let budget = max_envelope_bytes - ENVELOPE_HEADROOM_BYTES;
                &&& k <= rows@.len()
                &&& (rows@.len() > 0 ==> 1 <= k)
                &&& (k > 0 ==> prefix_cost(rows@, k) <= budget)
                &&& (k < rows@.len() ==> prefix_cost(rows@, k + 1) > budget)
                &&& plan_links_valid(plan, rows@, head_sequence, head_hash@, *hasher)
            },
            Err(error) => error is Unexpected,
        },
        rows@.len() == 0 ==> (result matches Ok(plan) && plan.deliveries@.len() == 0),
        rows@.len() > 0 && prefix_cost(rows@, 1) > max_envelope_bytes - ENVELOPE_HEADROOM_BYTES ==> (result matches Err(
            RepositoryError::Unexpected(text),
        ) && text@ == "security audit event exceeds the committed envelope bound"@),
        rows@.len() > 0 && prefix_cost(rows@, 1) <= max_envelope_bytes - ENVELOPE_HEADROOM_BYTES
            && hasher_yields_digests(*hasher) && (forall|x: int|
            0 <= x < planned_len(rows@, max_envelope_bytes - ENVELOPE_HEADROOM_BYTES) ==> row_well_formed(
                #[trigger] rows@[x],
            )) && head_sequence + unchained_count(rows@, planned_len(rows@, max_envelope_bytes - ENVELOPE_HEADROOM_BYTES))
            <= i64::MAX ==> result is Ok,
{
    let n = rows.len();
    let budget: i128 = max_envelope_bytes as i128 - ENVELOPE_HEADROOM_BYTES as i128;
    let mut used: i128 = 0;
    let mut next_sequence: i64 = head_sequence;
    let mut next_hash: Vec<u8> = copy_bytes(head_hash);
    let mut deliveries: Vec<SecurityAuditOutboxDelivery> = Vec::new();
    let mut new_positions: Vec<usize> = Vec::new();
    let mut new_event_ids: Vec<u128> = Vec::new();
    let mut new_event_hashes: Vec<Vec<u8>> = Vec::new();
    let mut full = false;
    let mut i: usize = 0;
    proof {
        lemma_unchained_count_step(rows@, 0);
    }
    while i < n && !full
        invariant
            n == rows@.len(),
            i <= n,
            budget == max_envelope_bytes - ENVELOPE_HEADROOM_BYTES,
            forall|s: i64, p: &[u8], r: &AuditBatchCandidate| hasher.requires((s, p, r)),
            deliveries@.len() == i,
            used == prefix_cost(rows@, i as int),
            i >= 1 ==> used <= budget,
            i >= 1 ==> prefix_cost(rows@, 1) <= budget,
            full ==> i < n && prefix_cost(rows@, i + 1) > budget,
            next_sequence == head_sequence + new_positions@.len(),
            next_hash@ == if new_positions@.len() == 0 {
                head_hash@
            } else {
                deliveries@[new_positions@[new_positions@.len() - 1] as int].event_hash@
            },
            forall|s: i64, p: &[u8], r: &AuditBatchCandidate| hasher.requires((s, p, r)),
            0 <= used,
            i <= 1 ==> used <= u64::MAX as int + PER_EVENT_ENVELOPE_BYTES,
            forall|x: int| 0 <= x < i ==> carries_candidate(#[trigger] deliveries@[x], rows@[x]),
            forall|x: int| 0 <= x < i ==> is_chained(rows@[x]) || is_unchained(rows@[x]),
            forall|x: int| 0 <= x < i && is_chained(rows@[x]) ==> keeps_link(#[trigger] deliveries@[x], rows@[x]),
            forall|j: int| 0 <= j < new_positions@.len() ==> (#[trigger] new_positions@[j] as int) < i && is_unchained(rows@[new_positions@[j] as int]),
            forall|j1: int, j2: int| 0 <= j1 < j2 < new_positions@.len() ==> #[trigger] new_positions@[j1] < #[trigger] new_positions@[j2],
            forall|x: int| 0 <= x < i && is_unchained(rows@[x]) ==> exists|j: int| 0 <= j < new_positions@.len() && #[trigger] new_positions@[j] == x,
            forall|j: int|
                0 <= j < new_positions@.len() ==> {
                    let d = #[trigger] deliveries@[new_positions@[j] as int];
                    let previous = if j == 0 {
                        head_hash@
                    } else {
                        deliveries@[new_positions@[j - 1] as int].event_hash@
                    };
                    &&& d.sequence == head_sequence + j + 1
                    &&& d.previous_hash@ == previous
                    &&& exists|p: &[u8]| p@ == previous && call_ensures(*hasher, (d.sequence, p, &rows@[new_positions@[j] as int]), d.event_hash)
                },
            new_event_ids@.len() == new_positions@.len(),
            new_event_hashes@.len() == new_positions@.len(),
            forall|j: int| 0 <= j < new_positions@.len() ==> #[trigger] new_event_ids@[j] == rows@[new_positions@[j] as int].event_id,
            forall|j: int| 0 <= j < new_positions@.len() ==> #[trigger] new_event_hashes@[j]@ == deliveries@[new_positions@[j] as int].event_hash@,
            forall|x: int| 0 <= x < i ==> (#[trigger] deliveries@[x]).event_hash@.len() == 32,
            new_positions@.len() == unchained_count(rows@, i as int),
            !full ==> planned_len_from(rows@, budget as int, i as int) == planned_len(rows@, budget as int),
        decreases n - i, if full { 0int } else { 1int },
    {
        let ghost old_positions = new_positions@;
        let row = &rows[i];
        let cost: i128 = row.payload_canonical.as_str().as_bytes().len() as i128 + PER_EVENT_ENVELOPE_BYTES as i128;
        assert(prefix_cost(rows@, i + 1) == used + cost);
        if used + cost > budget {
            full = true;
        } else {
            proof {
                lemma_planned_len_step(rows@, budget as int, i as int);
                lemma_planned_len_bounds(rows@, budget as int, i + 1);
                lemma_planned_len_bounds(rows@, budget as int, 0);
                lemma_unchained_count_step(rows@, i as int);
                lemma_unchained_count_monotone(rows@, i + 1, planned_len(rows@, budget as int));
            }
            let delivery = if row.sequence.is_some() && row.previous_hash.is_some() && row.event_hash.is_some() {
                let hash = copy_bytes(row.event_hash.as_ref().unwrap());
                if !is_32_bytes(&hash) {
                    return Err(unexpected("security audit chain hash has an invalid length"));
                }
                SecurityAuditOutboxDelivery {
                    event_id: row.event_id,
                    sequence: row.sequence.unwrap(),
                    event_type: row.event_type.clone(),
                    event_category: row.event_category.clone(),
                    payload_canonical: row.payload_canonical.clone(),
                    occurred_at: row.occurred_at,
                    previous_hash: copy_bytes(row.previous_hash.as_ref().unwrap()),
                    event_hash: hash,
                }
            } else if row.sequence.is_none() && row.previous_hash.is_none() && row.event_hash.is_none() {
                if next_sequence == i64::MAX {
                    return Err(unexpected("security audit sequence overflow"));
                }
                let sequence = next_sequence + 1;
                let previous_slice = next_hash.as_slice();
                let hash = hasher(sequence, previous_slice, row);
                if !is_32_bytes(&hash) {
                    return Err(unexpected("security audit chain hash has an invalid length"));
                }
                let previous = copy_bytes(&next_hash);
                next_sequence = sequence;
                next_hash = copy_bytes(&hash);
                new_positions.push(i);
                new_event_ids.push(row.event_id);
                new_event_hashes.push(copy_bytes(&hash));
                SecurityAuditOutboxDelivery {
                    event_id: row.event_id,
                    sequence,
                    event_type: row.event_type.clone(),
                    event_category: row.event_category.clone(),
                    payload_canonical: row.payload_canonical.clone(),
                    occurred_at: row.occurred_at,
                    previous_hash: previous,
                    event_hash: hash,
                }
            } else {
                return Err(unexpected("security audit chain entry is incomplete"));
            };
            deliveries.push(delivery);
            proof {
                assert forall|x: int|
                    0 <= x < i + 1 && is_unchained(rows@[x]) implies exists|j: int|
                    0 <= j < new_positions@.len() && #[trigger] new_positions@[j] == x by {
                    if x == i {
                        assert(new_positions@[new_positions@.len() - 1] == x);
                    } else {
                        let j = choose|j: int| 0 <= j < old_positions.len() && old_positions[j] == x;
                        assert(new_positions@[j] == x);
                    }
                }
            }
            used = used + cost;
            i = i + 1;
        }
    }
    if deliveries.len() == 0 && n > 0 {
        assert(prefix_cost(rows@, 1) > budget);
        return Err(unexpected("security audit event exceeds the committed envelope bound"));
    }
    assert(i > 0 ==> prefix_cost(rows@, i as int) <= budget);
    assert(n > 0 ==> i >= 1);
    let plan = FreshBatchPlan { deliveries, new_positions, new_event_ids, new_event_hashes };
    assert(plan_links_valid(plan, rows@, head_sequence, head_hash@, *hasher));
    Ok(plan)
}

} // verus!

verus! {

/// The locked chain head and the state of the single in-flight batch.
#[derive(Clone, Debug)]
pub struct AuditChainHead {
    pub last_sequence: i64,
    pub last_hash: Vec<u8>,
    pub anchor_sequence: Option<i64>,
    pub batch_first_sequence: Option<i64>,
    pub batch_last_sequence: Option<i64>,
    pub batch_event_count: Option<i32>,
    pub batch_digest: Option<Vec<u8>>,
    pub batch_attempts: i32,
    pub batch_available_at: Option<i64>,
    pub batch_locked_until: Option<i64>,
    pub batch_blocked_reason: Option<String>,
}

/// A committed batch handed to the exporter.
#[derive(Clone, Debug)]
pub struct SecurityAuditBatch {
    pub generation: i64,
    pub first_sequence: i64,
    pub last_sequence: i64,
    pub previous_hash: Vec<u8>,
    pub last_hash: Vec<u8>,
    pub digest: Vec<u8>,
    pub attempts: i32,
    pub deliveries: Vec<SecurityAuditOutboxDelivery>,
}

/// What a batch claim returns to the exporter.
#[derive(Clone, Debug)]
pub enum SecurityAuditBatchClaim {
    Empty,
    Busy,
    Blocked { reason: String },
    Claimed(SecurityAuditBatch),
}

/// Whether the claim must re-claim the committed in-flight batch.
pub fn has_inflight_batch(head: &AuditChainHead) -> (result: bool)
    ensures
        result == head.batch_last_sequence is Some,
{
    head.batch_last_sequence.is_some()
}

/// Before re-reading an in-flight batch: a blocked batch stays parked, and a
/// leased or backed-off batch is busy.  `None` means: go on and re-claim.
pub fn inflight_gate(head: &AuditChainHead, now: i64) -> (result: Option<SecurityAuditBatchClaim>)
    ensures
        head.batch_blocked_reason matches Some(reason) ==> result matches Some(
            SecurityAuditBatchClaim::Blocked { reason: r },
        ) && r == reason,
        head.batch_blocked_reason is None && ((head.batch_locked_until matches Some(t) && t > now)
            || (head.batch_available_at matches Some(t) && t > now)) ==> result matches Some(
            SecurityAuditBatchClaim::Busy,
        ),
        head.batch_blocked_reason is None && !(head.batch_locked_until matches Some(t) && t > now)
            && !(head.batch_available_at matches Some(t) && t > now) ==> result is None,
{
    if let Some(reason) = &head.batch_blocked_reason {
        return Some(SecurityAuditBatchClaim::Blocked { reason: reason.clone() });
    }
    let locked = match head.batch_locked_until {
        Some(until) => until > now,
        None => false,
    };
    let backing_off = match head.batch_available_at {
        Some(at) => at > now,
        None => false,
    };
    if locked || backing_off {
        return Some(SecurityAuditBatchClaim::Busy);
    }
    None
}

/// The members of a committed batch, checked against its lease.
#[derive(Clone, Debug)]
pub struct InflightMembers {
    pub first_sequence: i64,
    pub last_sequence: i64,
    pub event_count: i64,
    pub previous_hash: Vec<u8>,
    pub last_hash: Vec<u8>,
    pub deliveries: Vec<SecurityAuditOutboxDelivery>,
}

/// The re-read members still form the committed prefix: exactly the
/// recorded count, with consecutive sequences from the batch's first.
pub open spec fn members_form_prefix(head: AuditChainHead, rows: Seq<AuditBatchCandidate>) -> bool {
    let first = match head.batch_first_sequence { Some(v) => v as int, None => 0 };
    let last = match head.batch_last_sequence { Some(v) => v as int, None => 0 };
    let count = match head.batch_event_count { Some(v) => v as int, None => 0 };
    &&& count >= 0
    &&& rows.len() == count
    &&& first + count - 1 == last
    &&& forall|o: int| 0 <= o < rows.len() ==> (#[trigger] rows[o]).sequence == Some((first + o) as i64)
}

pub open spec fn continues_anchor(head: AuditChainHead) -> bool {
    let first = match head.batch_first_sequence { Some(v) => v as int, None => 0 };
    let anchor = match head.anchor_sequence { Some(v) => v as int, None => 0 };
    first == anchor + 1
}

/// What checking a re-read in-flight batch gives: on success the members
/// are exactly the re-read rows, fully chained, under the lease's range; a
/// failure is unexpected, and when the rows do continue the anchor and form
/// the committed prefix it names a member that is not fully chained.
pub open spec fn inflight_check_holds(
    head: AuditChainHead,
    rows: Seq<AuditBatchCandidate>,
    result: Result<InflightMembers, RepositoryError>,
) -> bool {
    match result {
        Ok(members) => {
            &&& continues_anchor(head)
            &&& members_form_prefix(head, rows)
            &&& rows.len() > 0
            &&& members.deliveries@.len() == rows.len()
            &&& forall|o: int| 0 <= o < rows.len() ==> {
                let d = #[trigger] members.deliveries@[o];
                &&& carries_candidate(d, rows[o])
                &&& is_chained(rows[o])
                &&& keeps_link(d, rows[o])
                &&& d.event_hash@.len() == 32
            }
            &&& members.first_sequence == match head.batch_first_sequence { Some(v) => v, None => 0 }
            &&& members.last_sequence == match head.batch_last_sequence { Some(v) => v, None => 0 }
            &&& members.previous_hash@ == members.deliveries@[0].previous_hash@
            &&& members.last_hash@ == members.deliveries@[rows.len() - 1].event_hash@
            &&& members.event_count == rows.len()
        },
        Err(error) => {
            &&& error is Unexpected
            &&& (continues_anchor(head) && members_form_prefix(head, rows) && rows.len() > 0
                ==> exists|o: int| 0 <= o < rows.len() && !(is_chained(#[trigger] rows[o])
                && rows[o].event_hash->0@.len() == 32))
        },
    }
}

/// Two deliveries agree in every field.
pub open spec fn same_delivery(a: SecurityAuditOutboxDelivery, b: SecurityAuditOutboxDelivery) -> bool {
    &&& a.event_id == b.event_id
    &&& a.sequence == b.sequence
    &&& a.event_type == b.event_type
    &&& a.event_category == b.event_category
    &&& a.payload_canonical == b.payload_canonical
    &&& a.occurred_at == b.occurred_at
    &&& a.previous_hash@ == b.previous_hash@
    &&& a.event_hash@ == b.event_hash@
}

/// The lease a claim records for the batch `deliveries` after the anchor:
/// its first and last sequence and its size.
pub open spec fn records_batch(head: AuditChainHead, deliveries: Seq<SecurityAuditOutboxDelivery>) -> bool {
    let k = deliveries.len();
    &&& k > 0
    &&& head.batch_first_sequence == Some(deliveries[0].sequence)
    &&& head.batch_last_sequence == Some(deliveries[k - 1].sequence)
    &&& head.batch_event_count matches Some(c) && c == k
    &&& head.anchor_sequence matches Some(a) && a + 1 == deliveries[0].sequence
}

/// Re-claiming a committed batch whose rows are re-read unchanged gives back
/// the identical batch: when the lease records the batch, its members carry
/// consecutive sequences and 32-byte hashes, and the re-read rows hold
/// exactly their content and links, the check succeeds with the same
/// deliveries, range and end hashes.
pub proof fn lemma_reclaim_returns_committed_batch(
    head: AuditChainHead,
    deliveries: Seq<SecurityAuditOutboxDelivery>,
    rows: Seq<AuditBatchCandidate>,
    result: Result<InflightMembers, RepositoryError>,
)
    requires
        records_batch(head, deliveries),
        forall|o: int| 0 <= o < deliveries.len() ==> (#[trigger] deliveries[o]).sequence == deliveries[0].sequence + o,
        forall|o: int| 0 <= o < deliveries.len() ==> (#[trigger] deliveries[o]).event_hash@.len() == 32,
        rows.len() == deliveries.len(),
        forall|o: int|
            0 <= o < rows.len() ==> carries_candidate(deliveries[o], #[trigger] rows[o]) && is_chained(rows[o])
                && keeps_link(deliveries[o], rows[o]),
        inflight_check_holds(head, rows, result),
    ensures
        result matches Ok(members) && {
            &&& members.deliveries@.len() == deliveries.len()
            &&& forall|o: int| 0 <= o < deliveries.len() ==> same_delivery(#[trigger] members.deliveries@[o], deliveries[o])
            &&& members.first_sequence == deliveries[0].sequence
            &&& members.last_sequence == deliveries[deliveries.len() - 1].sequence
            &&& members.previous_hash@ == deliveries[0].previous_hash@
            &&& members.last_hash@ == deliveries[deliveries.len() - 1].event_hash@
            &&& members.event_count == deliveries.len()
        },
{
    assert(continues_anchor(head));
    assert forall|o: int| 0 <= o < rows.len() implies (#[trigger] rows[o]).sequence == Some(
        (deliveries[0].sequence + o) as i64,
    ) by {
        assert(deliveries[o].sequence == deliveries[0].sequence + o);
    }
    assert(members_form_prefix(head, rows));
    if result is Err {
        let o = choose|o: int| 0 <= o < rows.len() && !(is_chained(#[trigger] rows[o])
            && rows[o].event_hash->0@.len() == 32);
        assert(deliveries[o].event_hash@.len() == 32);
        assert(false);
    }
}

/// Check a re-read in-flight batch: it must continue the exported anchor,
/// still be exactly the committed prefix, and every member must be fully
/// chained with a 32-byte hash.  Anything else fails closed.
pub fn check_inflight_members(head: &AuditChainHead, rows: &[AuditBatchCandidate]) -> (result: Result<
    InflightMembers,
    RepositoryError,
>)
    ensures
        inflight_check_holds(*head, rows@, result),
{
    let first = match head.batch_first_sequence { Some(v) => v, None => 0 };
    let last = match head.batch_last_sequence { Some(v) => v, None => 0 };
    let count = match head.batch_event_count { Some(v) => v, None => 0 };
    let anchor = match head.anchor_sequence { Some(v) => v, None => 0 };
    if first as i128 != anchor as i128 + 1 {
        return Err(unexpected("security audit batch does not continue the anchor checkpoint"));
    }
    let mut prefix = count >= 0 && rows.len() as i128 == count as i128 && first as i128 + count as i128 - 1 == last as i128;
    let mut o: usize = 0;
    while prefix && o < rows.len()
        invariant
            o <= rows@.len(),
            prefix ==> (count >= 0 && rows@.len() == count && first + count - 1 == last),
            prefix ==> forall|x: int| 0 <= x < o ==> (#[trigger] rows@[x]).sequence == Some((first + x) as i64),
            !prefix ==> !members_form_prefix(*head, rows@),
            first == match head.batch_first_sequence { Some(v) => v, None => 0 },
            last == match head.batch_last_sequence { Some(v) => v, None => 0 },
            count == match head.batch_event_count { Some(v) => v, None => 0 },
        decreases rows@.len() - o,
    {
        let expected = first as i128 + o as i128;
        let matches = match rows[o].sequence {
            Some(sequence) => sequence as i128 == expected,
            None => false,
        };
        if !matches {
            prefix = false;
        }
        o = o + 1;
    }
    if !prefix {
        return Err(unexpected("security audit batch members no longer form the committed prefix"));
    }
    let mut deliveries: Vec<SecurityAuditOutboxDelivery> = Vec::new();
    let mut k: usize = 0;
    while k < rows.len()
        invariant
            k <= rows@.len(),
            deliveries@.len() == k,
            forall|x: int| 0 <= x < k ==> {
                let d = #[trigger] deliveries@[x];
                &&& carries_candidate(d, rows@[x])
                &&& is_chained(rows@[x])
                &&& keeps_link(d, rows@[x])
                &&& d.event_hash@.len() == 32
            },
        decreases rows@.len() - k,
    {
        let row = &rows[k];
        let event_hash = match &row.event_hash {
            None => {
                return Err(unexpected("security audit batch member has no chain hash"));
            },
            Some(hash) => copy_bytes(hash),
        };
        if !is_32_bytes(&event_hash) {
            return Err(unexpected("security audit chain hash has an invalid length"));
        }
        let sequence = match row.sequence {
            None => {
                return Err(unexpected("security audit batch member has no sequence"));
            },
            Some(sequence) => sequence,
        };
        let previous_hash = match &row.previous_hash {
            None => {
                return Err(unexpected("security audit batch member has no previous hash"));
            },
            Some(hash) => copy_bytes(hash),
        };
        deliveries.push(
            SecurityAuditOutboxDelivery {
                event_id: row.event_id,
                sequence,
                event_type: row.event_type.clone(),
                event_category: row.event_category.clone(),
                payload_canonical: row.payload_canonical.clone(),
                occurred_at: row.occurred_at,
                previous_hash,
                event_hash,
            },
        );
        k = k + 1;
    }
    if deliveries.len() == 0 {
        return Err(unexpected("security audit batch has no first member"));
    }
    let previous_hash = copy_bytes(&deliveries[0].previous_hash);
    let last_hash = copy_bytes(&deliveries[deliveries.len() - 1].event_hash);
    Ok(
        InflightMembers {
            first_sequence: first,
            last_sequence: last,
            event_count: count as i64,
            previous_hash,
            last_hash,
            deliveries,
        },
    )
}

/// A re-claim must find the committed content unchanged under the lease.
pub fn check_inflight_digest(stored: &Option<Vec<u8>>, digest: &Vec<u8>) -> (result: Result<(), RepositoryError>)
    ensures
        result is Ok <==> (stored is None || stored->0@ == digest@),
        result is Err ==> (result matches Err(RepositoryError::Unexpected(text)) && text@
            == "security audit batch content changed under the lease"@),
{
    match stored {
        None => Ok(()),
        Some(bytes) => {
            if bytes.len() != digest.len() {
                return Err(unexpected("security audit batch content changed under the lease"));
            }
            let mut i: usize = 0;
            while i < bytes.len()
                invariant
                    stored is Some && stored->0@ == bytes@,
                    bytes@.len() == digest@.len(),
                    i <= bytes@.len(),
                    forall|j: int| 0 <= j < i ==> bytes@[j] == digest@[j],
                decreases bytes@.len() - i,
            {
                if bytes[i] != digest[i] {
                    assert(bytes@[i as int] != digest@[i as int]);
                    return Err(unexpected("security audit batch content changed under the lease"));
                }
                i = i + 1;
            }
            assert(bytes@ =~= digest@);
            Ok(())
        },
    }
}

/// `batch` holds exactly `deliveries` and is bounded by them: its first
/// sequence and previous hash are the first delivery's, its last sequence
/// and last hash the last delivery's.
pub open spec fn batch_matches(batch: SecurityAuditBatch, deliveries: Seq<SecurityAuditOutboxDelivery>) -> bool {
    let k = deliveries.len();
    &&& k > 0
    &&& batch.deliveries@.len() == k
    &&& forall|o: int| 0 <= o < k ==> same_delivery(#[trigger] batch.deliveries@[o], deliveries[o])
    &&& batch.first_sequence == deliveries[0].sequence
    &&& batch.last_sequence == deliveries[k - 1].sequence
    &&& batch.previous_hash@ == deliveries[0].previous_hash@
    &&& batch.last_hash@ == deliveries[k - 1].event_hash@
}

/// The batch a fresh claim hands to the exporter: the planned deliveries,
/// bounded by the first and last of them, with the generation the store
/// opened it under, its digest, and no attempt yet.
pub fn claimed_fresh_batch(plan: FreshBatchPlan, generation: i64, digest: Vec<u8>) -> (batch: SecurityAuditBatch)
    requires
        plan.deliveries@.len() > 0,
    ensures
        batch_matches(batch, plan.deliveries@),
        batch.generation == generation,
        batch.digest@ == digest@,
        batch.attempts == 0,
{
    let k = plan.deliveries.len();
    let first_sequence = plan.deliveries[0].sequence;
    let previous_hash = copy_bytes(&plan.deliveries[0].previous_hash);
    let last_sequence = plan.deliveries[k - 1].sequence;
    let last_hash = copy_bytes(&plan.deliveries[k - 1].event_hash);
    SecurityAuditBatch {
        generation,
        first_sequence,
        last_sequence,
        previous_hash,
        last_hash,
        digest,
        attempts: 0,
        deliveries: plan.deliveries,
    }
}

/// `batch` is the re-claimed batch built from the checked members.
pub open spec fn reclaimed_from(
    batch: SecurityAuditBatch,
    members: InflightMembers,
    generation: i64,
    attempts: i32,
    digest: Seq<u8>,
) -> bool {
    &&& batch.first_sequence == members.first_sequence
    &&& batch.last_sequence == members.last_sequence
    &&& batch.previous_hash@ == members.previous_hash@
    &&& batch.last_hash@ == members.last_hash@
    &&& batch.deliveries@ == members.deliveries@
    &&& batch.generation == generation
    &&& batch.attempts == attempts
    &&& batch.digest@ == digest
}

/// The batch a re-claim hands to the exporter: the checked members under
/// the store's new generation, keeping the attempt count, with the digest
/// recomputed from them, which must equal the one stored with the lease.
pub fn reclaimed_batch(
    members: InflightMembers,
    generation: i64,
    attempts: i32,
    stored_digest: &Option<Vec<u8>>,
    digest: Vec<u8>,
) -> (result: Result<SecurityAuditBatch, RepositoryError>)
    ensures
        result is Ok <==> (stored_digest is None || stored_digest->0@ == digest@),
        result is Err ==> (result matches Err(RepositoryError::Unexpected(text)) && text@
            == "security audit batch content changed under the lease"@),
        result matches Ok(batch) ==> reclaimed_from(batch, members, generation, attempts, digest@),
        result matches Ok(batch) ==> (stored_digest is Some ==> batch.digest@ == stored_digest->0@),
{
    match check_inflight_digest(stored_digest, &digest) {
        Err(error) => Err(error),
        Ok(()) => Ok(
            SecurityAuditBatch {
                generation,
                first_sequence: members.first_sequence,
                last_sequence: members.last_sequence,
                previous_hash: members.previous_hash,
                last_hash: members.last_hash,
                digest,
                attempts,
                deliveries: members.deliveries,
            },
        ),
    }
}

/// A lapsed, unsettled batch re-claims as the batch that was claimed: when
/// the lease records the claimed batch `claimed` and its digest, and the
/// rows are re-read unchanged, the re-claimed batch holds the same
/// deliveries, bounds, end hashes and digest.
pub proof fn lemma_reclaimed_batch_is_the_claimed_batch(
    claimed: SecurityAuditBatch,
    head: AuditChainHead,
    deliveries: Seq<SecurityAuditOutboxDelivery>,
    rows: Seq<AuditBatchCandidate>,
    check: Result<InflightMembers, RepositoryError>,
    reclaimed: SecurityAuditBatch,
    generation: i64,
    digest: Seq<u8>,
)
    requires
        batch_matches(claimed, deliveries),
        records_batch(head, deliveries),
        head.batch_digest matches Some(stored) && stored@ == claimed.digest@,
        forall|o: int| 0 <= o < deliveries.len() ==> (#[trigger] deliveries[o]).sequence == deliveries[0].sequence + o,
        forall|o: int| 0 <= o < deliveries.len() ==> (#[trigger] deliveries[o]).event_hash@.len() == 32,
        rows.len() == deliveries.len(),
        forall|o: int|
            0 <= o < rows.len() ==> carries_candidate(deliveries[o], #[trigger] rows[o]) && is_chained(rows[o])
                && keeps_link(deliveries[o], rows[o]),
        inflight_check_holds(head, rows, check),
        check matches Ok(members) && reclaimed_from(reclaimed, members, generation, head.batch_attempts, digest),
        digest == head.batch_digest->0@,
    ensures
        batch_matches(reclaimed, deliveries),
        reclaimed.digest@ == claimed.digest@,
{
    lemma_reclaim_returns_committed_batch(head, deliveries, rows, check);
}

/// The lease of the in-flight batch as the anchor health view reports it.
#[derive(Clone, Debug)]
pub struct SecurityAuditBatchLease {
    pub first_sequence: i64,
    pub last_sequence: i64,
    pub event_count: i64,
    pub generation: i64,
    pub attempts: i32,
    pub available_at: Option<i64>,
    pub locked_until: Option<i64>,
    pub last_error: Option<String>,
    pub blocked_reason: Option<String>,
}

/// The batch columns of the anchor health row.
#[derive(Clone, Debug)]
pub struct AnchorBatchColumns {
    pub batch_first_sequence: Option<i64>,
    pub batch_last_sequence: Option<i64>,
    pub batch_event_count: Option<i32>,
    pub batch_generation: i64,
    pub batch_attempts: i32,
    pub batch_available_at: Option<i64>,
    pub batch_locked_until: Option<i64>,
    pub batch_last_error: Option<String>,
    pub batch_blocked_reason: Option<String>,
}

/// The health view reports a lease exactly when a batch is in flight; an
/// absent first sequence or count reads as zero.
pub fn batch_lease_of(columns: AnchorBatchColumns) -> (lease: Option<SecurityAuditBatchLease>)
    ensures
        lease is Some <==> columns.batch_last_sequence is Some,
        lease matches Some(l) ==> {
            &&& l.last_sequence == columns.batch_last_sequence->0
            &&& l.first_sequence == match columns.batch_first_sequence { Some(f) => f, None => 0 }
            &&& l.event_count == match columns.batch_event_count { Some(c) => c as i64, None => 0 }
            &&& l.generation == columns.batch_generation
            &&& l.attempts == columns.batch_attempts
            &&& l.available_at == columns.batch_available_at
            &&& l.locked_until == columns.batch_locked_until
            &&& l.last_error == columns.batch_last_error
            &&& l.blocked_reason == columns.batch_blocked_reason
        },
{
    match columns.batch_last_sequence {
        None => None,
        Some(last_sequence) => {
            let first_sequence = match columns.batch_first_sequence {
                Some(f) => f,
                None => 0,
            };
            let event_count: i64 = match columns.batch_event_count {
                Some(c) => c as i64,
                None => 0,
            };
            Some(SecurityAuditBatchLease {
                first_sequence,
                last_sequence,
                event_count,
                generation: columns.batch_generation,
                attempts: columns.batch_attempts,
                available_at: columns.batch_available_at,
                locked_until: columns.batch_locked_until,
                last_error: columns.batch_last_error,
                blocked_reason: columns.batch_blocked_reason,
            })
        },
    }
}

} // verus!
