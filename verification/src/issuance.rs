//! OpenID4VCI issuance state: credential offers and their transaction
//! codes, the single-use proof nonces, protected payload framing, and the
//! stored names of response encodings and notification events.

use vstd::prelude::*;

use vstd::string::StringSliceAdditionalSpecFns;

use crate::credential_crypto::CredentialStoreError;
use crate::time::MICROS_PER_SECOND;
use crate::text::text_equals;
use argon2::PasswordVerifier as _;

verus! {

/// How long an authorization derived from an offer may last: ten minutes,
/// and never past the offer's own expiry.
pub const OFFER_AUTHORIZATION_SECONDS: i64 = 600;
/// How long a proof-nonce claim holds.
pub const NONCE_CLAIM_SECONDS: i64 = 300;

/// Whether an Argon2 PHC string parses and accepts a secret.
pub uninterp spec fn argon2_accepts(phc: Seq<char>, secret: Seq<u8>) -> bool;

/// Calls `argon2::PasswordHash::new` on the stored PHC string and, when it
/// parses, `Argon2::default().verify_password` on the presented secret.
/// Trusted: the verdict is `argon2_accepts` of the two (Argon2 is
/// deterministic); an unparsable hash accepts nothing.
#[verifier::external_body]
fn argon2_verify(phc: &str, secret: &[u8]) -> (accepted: bool)
    ensures
        accepted == argon2_accepts(phc@, secret@),
{
    match argon2::PasswordHash::new(phc) {
        Ok(hash) => argon2::Argon2::default().verify_password(secret, &hash).is_ok(),
        Err(_) => false,
    }
}

/// An offer without a transaction code takes none; an offer with one takes
/// a code the stored Argon2 hash accepts.
pub open spec fn tx_code_accepted(expected: Option<Seq<char>>, presented: Option<Seq<u8>>) -> bool {
    match (expected, presented) {
        (None, None) => true,
        (Some(phc), Some(code)) => argon2_accepts(phc, code),
        _ => false,
    }
}

pub fn tx_code_matches(expected: Option<&str>, presented: Option<&str>) -> (matches: bool)
    ensures
        matches == tx_code_accepted(
            match expected {
                Some(e) => Some(e@),
                None => None,
            },
            match presented {
                Some(p) => Some(p.spec_bytes()),
                None => None,
            },
        ),
{
    match (expected, presented) {
        (None, None) => true,
        (Some(phc), Some(code)) => argon2_verify(phc, code.as_bytes()),
        _ => false,
    }
}

/// What redeeming a pre-authorized code does about the transaction code.
#[derive(Clone, Copy, Debug, PartialEq, Eq, Structural)]
pub enum TxCodeCheck {
    /// Neither the offer nor the request has a code.
    NotRequired,
    /// Exactly one side has a code: the redemption fails.
    Mismatch,
    /// Verify the presented code against the offer's hash.
    Verify,
}

pub fn tx_code_check(offer_has_code: bool, code_presented: bool) -> (check: TxCodeCheck)
    ensures
        !offer_has_code && !code_presented ==> check == TxCodeCheck::NotRequired,
        offer_has_code != code_presented ==> check == TxCodeCheck::Mismatch,
        offer_has_code && code_presented ==> check == TxCodeCheck::Verify,
{
    if offer_has_code && code_presented {
        TxCodeCheck::Verify
    } else if offer_has_code || code_presented {
        TxCodeCheck::Mismatch
    } else {
        TxCodeCheck::NotRequired
    }
}

/// The end of an authorization started at `start` from an offer expiring
/// at `offer_expires_at`: ten minutes later, or the offer's expiry when
/// that comes first.
pub open spec fn authorization_end(start: i64, offer_expires_at: i64) -> i64 {
    let capped = start + OFFER_AUTHORIZATION_SECONDS * MICROS_PER_SECOND;
    if capped <= offer_expires_at {
        capped as i64
    } else {
        offer_expires_at
    }
}

pub fn authorization_expiry(start: i64, offer_expires_at: i64) -> (end: i64)
    requires
        start + OFFER_AUTHORIZATION_SECONDS * MICROS_PER_SECOND <= i64::MAX,
    ensures
        end == authorization_end(start, offer_expires_at),
        end <= offer_expires_at,
        end <= start + OFFER_AUTHORIZATION_SECONDS * MICROS_PER_SECOND,
{
    let capped = start + OFFER_AUTHORIZATION_SECONDS * MICROS_PER_SECOND;
    if capped <= offer_expires_at {
        capped
    } else {
        offer_expires_at
    }
}

/// A stored proof nonce.  Times are microseconds since the epoch.
#[derive(Clone, Debug)]
pub struct NonceRow {
    pub created_at: i64,
    pub expires_at: i64,
    pub consumed_at: Option<i64>,
    pub claim_id: Option<String>,
    pub claim_expires_at: Option<i64>,
}

/// A nonce can be spent while unconsumed and unexpired.
pub open spec fn nonce_live(row: NonceRow, now: i64) -> bool {
    row.consumed_at is None && now < row.expires_at
}

/// Another claim holds the nonce at `now`.
pub open spec fn nonce_claim_held(row: NonceRow, now: i64) -> bool {
    &&& row.claim_id is Some
    &&& row.claim_expires_at matches Some(until) && now < until
}

fn latest(a: i64, b: i64) -> (m: i64)
    ensures
        m == if a >= b { a } else { b },
{
    if a >= b {
        a
    } else {
        b
    }
}

/// Spend a live nonce directly.  Returns whether it was spent; the nonce is
/// recorded as consumed at `now` (never before its creation).
pub fn consume_nonce(row: &mut NonceRow, now: i64) -> (spent: bool)
    ensures
        spent == nonce_live(*old(row), now),
        spent ==> *final(row) == (NonceRow {
            consumed_at: Some(if now >= old(row).created_at { now } else { old(row).created_at }),
            ..*old(row)
        }),
        !spent ==> *final(row) == *old(row),
{
    if row.consumed_at.is_none() && now < row.expires_at {
        row.consumed_at = Some(latest(now, row.created_at));
        true
    } else {
        false
    }
}

/// Claim a live nonce for `claim_id` for five minutes, unless another live
/// claim holds it.  Returns whether the claim was taken.
pub fn claim_nonce(row: &mut NonceRow, claim_id: &str, now: i64) -> (claimed: bool)
    requires
        now + NONCE_CLAIM_SECONDS * MICROS_PER_SECOND <= i64::MAX,
    ensures
        claimed == (nonce_live(*old(row), now) && !nonce_claim_held(*old(row), now)),
        claimed ==> (final(row).claim_id matches Some(id) && id@ == claim_id@) && final(row).claim_expires_at
            == Some((now + NONCE_CLAIM_SECONDS * MICROS_PER_SECOND) as i64) && final(row).consumed_at
            == old(row).consumed_at && final(row).expires_at == old(row).expires_at
            && final(row).created_at == old(row).created_at,
        !claimed ==> *final(row) == *old(row),
{
    let held = match (&row.claim_id, row.claim_expires_at) {
        (Some(_), Some(until)) => now < until,
        _ => false,
    };
    if row.consumed_at.is_none() && now < row.expires_at && !held {
        row.claim_id = Some(claim_id.to_owned());
        row.claim_expires_at = Some(now + NONCE_CLAIM_SECONDS * MICROS_PER_SECOND);
        true
    } else {
        false
    }
}

/// The nonce is claimed by `claim_id`.
pub open spec fn claimed_by(row: NonceRow, claim_id: Seq<char>) -> bool {
    row.claim_id matches Some(id) && id@ == claim_id
}

/// Spend a live nonce under the claim `claim_id`, clearing the claim.
pub fn finalize_nonce(row: &mut NonceRow, claim_id: &str, now: i64) -> (spent: bool)
    ensures
        spent == (claimed_by(*old(row), claim_id@) && nonce_live(*old(row), now)),
        spent ==> *final(row) == (NonceRow {
            consumed_at: Some(if now >= old(row).created_at { now } else { old(row).created_at }),
            claim_id: None,
            claim_expires_at: None,
            ..*old(row)
        }),
        !spent ==> *final(row) == *old(row),
{
    let owned = match &row.claim_id {
        Some(id) => text_equals(id.as_str(), claim_id),
        None => false,
    };
    if owned && row.consumed_at.is_none() && now < row.expires_at {
        row.consumed_at = Some(latest(now, row.created_at));
        row.claim_id = None;
        row.claim_expires_at = None;
        true
    } else {
        false
    }
}

/// Give up the claim `claim_id` on an unconsumed nonce.
pub fn release_nonce(row: &mut NonceRow, claim_id: &str) -> (released: bool)
    ensures
        released == (claimed_by(*old(row), claim_id@) && old(row).consumed_at is None),
        released ==> *final(row) == (NonceRow { claim_id: None, claim_expires_at: None, ..*old(row) }),
        !released ==> *final(row) == *old(row),
{
    let owned = match &row.claim_id {
        Some(id) => text_equals(id.as_str(), claim_id),
        None => false,
    };
    if owned && row.consumed_at.is_none() {
        row.claim_id = None;
        row.claim_expires_at = None;
        true
    } else {
        false
    }
}

/// A nonce is single-use: once spent (directly or through its claim), no
/// later spend, claim or finalization succeeds, whenever it is attempted.
pub proof fn lemma_spent_nonce_is_dead(row: NonceRow, later: i64)
    requires
        row.consumed_at is Some,
    ensures
        !nonce_live(row, later),
{
}

/// While a live claim holds a nonce, no other claimant can take it, and
/// only the holder can finalize it.
pub proof fn lemma_live_claim_is_exclusive(row: NonceRow, holder: Seq<char>, other: Seq<char>, now: i64)
    requires
        claimed_by(row, holder),
        row.claim_expires_at matches Some(until) && now < until,
        other != holder,
    ensures
        nonce_claim_held(row, now),
        !claimed_by(row, other),
{
}

/// The stored form of a protected issuance payload: the 12-byte nonce in
/// front of the AEAD ciphertext.
pub open spec fn protected_payload(nonce: Seq<u8>, ciphertext: Seq<u8>) -> Seq<u8> {
    nonce + ciphertext
}

pub fn frame_protected_payload(nonce: &[u8; 12], ciphertext: &[u8]) -> (protected: Vec<u8>)
    ensures
        protected@ == protected_payload(nonce@, ciphertext@),
{
    let mut protected: Vec<u8> = Vec::new();
    protected.extend_from_slice(nonce);
    protected.extend_from_slice(ciphertext);
    protected
}

/// Take a stored payload apart: anything shorter than a nonce is refused.
pub fn split_protected_payload(protected: &[u8]) -> (parts: Option<([u8; 12], Vec<u8>)>)
    ensures
        protected@.len() < 12 ==> parts is None,
        protected@.len() >= 12 ==> (parts matches Some((nonce, ciphertext)) && protected@ == protected_payload(
            nonce@,
            ciphertext@,
        )),
{
    if protected.len() < 12 {
        return None;
    }
    let nonce: [u8; 12] = [
        protected[0],
        protected[1],
        protected[2],
        protected[3],
        protected[4],
        protected[5],
        protected[6],
        protected[7],
        protected[8],
        protected[9],
        protected[10],
        protected[11],
    ];
    let rest = vstd::slice::slice_subrange(protected, 12, protected.len());
    let mut ciphertext: Vec<u8> = Vec::new();
    ciphertext.extend_from_slice(rest);
    assert(protected@ =~= protected_payload(nonce@, ciphertext@));
    Some((nonce, ciphertext))
}

/// Framing and splitting are inverse: a framed payload splits back into its
/// nonce and ciphertext.
pub proof fn lemma_payload_framing_round_trip(nonce: Seq<u8>, ciphertext: Seq<u8>, other_nonce: Seq<u8>, other_ciphertext: Seq<u8>)
    requires
        nonce.len() == 12,
        other_nonce.len() == 12,
        protected_payload(other_nonce, other_ciphertext) == protected_payload(nonce, ciphertext),
    ensures
        other_nonce == nonce,
        other_ciphertext == ciphertext,
{
    let p = protected_payload(nonce, ciphertext);
    assert(p.subrange(0, 12) =~= nonce);
    assert(p.subrange(0, 12) =~= other_nonce);
    assert(p.subrange(12, p.len() as int) =~= ciphertext);
    assert(p.subrange(12, p.len() as int) =~= other_ciphertext);
}

/// How a credential response body is encoded.
#[derive(Clone, Copy, Debug, PartialEq, Eq, Structural)]
pub enum CredentialResponseEncoding {
    Json,
    Jwt,
}

/// The stored name of a response encoding.
pub open spec fn response_encoding_text(encoding: CredentialResponseEncoding) -> Seq<char> {
    match encoding {
        CredentialResponseEncoding::Json => "json"@,
        CredentialResponseEncoding::Jwt => "jwt"@,
    }
}

pub fn response_encoding_name(encoding: CredentialResponseEncoding) -> (name: &'static str)
    ensures
        name@ == response_encoding_text(encoding),
{
    match encoding {
        CredentialResponseEncoding::Json => "json",
        CredentialResponseEncoding::Jwt => "jwt",
    }
}

/// What a wallet notified about an issued credential.
#[derive(Clone, Copy, Debug, PartialEq, Eq, Structural)]
pub enum NotificationEvent {
    CredentialAccepted,
    CredentialFailure,
    CredentialDeleted,
}

pub fn notification_event(event: NotificationEvent) -> (name: &'static str)
    ensures
        event == NotificationEvent::CredentialAccepted ==> name@ == "credential_accepted"@,
        event == NotificationEvent::CredentialFailure ==> name@ == "credential_failure"@,
        event == NotificationEvent::CredentialDeleted ==> name@ == "credential_deleted"@,
{
    match event {
        NotificationEvent::CredentialAccepted => "credential_accepted",
        NotificationEvent::CredentialFailure => "credential_failure",
        NotificationEvent::CredentialDeleted => "credential_deleted",
    }
}


/// The claim state of a stored deferred credential.  Times are
/// microseconds since the epoch.
#[derive(Clone, Debug)]
pub struct DeferredState {
    pub ready_at: i64,
    pub expires_at: i64,
    pub consumed_at: Option<i64>,
    pub claim_id: Option<String>,
    pub claim_expires_at: Option<i64>,
}

/// A deferred credential can be collected once it is ready, before it
/// expires, and only once.
pub open spec fn deferred_collectable(state: DeferredState, now: i64) -> bool {
    &&& state.consumed_at is None
    &&& state.ready_at <= now
    &&& now < state.expires_at
}

pub open spec fn deferred_claim_held(state: DeferredState, now: i64) -> bool {
    &&& state.claim_id is Some
    &&& state.claim_expires_at matches Some(until) && now < until
}

pub open spec fn deferred_claimed_by(state: DeferredState, claim_id: Seq<char>) -> bool {
    state.claim_id matches Some(id) && id@ == claim_id
}

/// Collect a ready credential directly; it is recorded as consumed at
/// `now`, never before it became ready.
pub fn consume_ready_deferred(state: &mut DeferredState, now: i64) -> (collected: bool)
    ensures
        collected == deferred_collectable(*old(state), now),
        collected ==> *final(state) == (DeferredState {
            consumed_at: Some(if now >= old(state).ready_at { now } else { old(state).ready_at }),
            ..*old(state)
        }),
        !collected ==> *final(state) == *old(state),
{
    if state.consumed_at.is_none() && state.ready_at <= now && now < state.expires_at {
        state.consumed_at = Some(latest(now, state.ready_at));
        true
    } else {
        false
    }
}

/// Claim a ready credential for `claim_id` for five minutes unless another
/// live claim holds it.
pub fn claim_ready_deferred(state: &mut DeferredState, claim_id: &str, now: i64) -> (claimed: bool)
    requires
        now + NONCE_CLAIM_SECONDS * MICROS_PER_SECOND <= i64::MAX,
    ensures
        claimed == (deferred_collectable(*old(state), now) && !deferred_claim_held(*old(state), now)),
        claimed ==> deferred_claimed_by(*final(state), claim_id@) && final(state).claim_expires_at == Some(
            (now + NONCE_CLAIM_SECONDS * MICROS_PER_SECOND) as i64,
        ) && final(state).consumed_at == old(state).consumed_at && final(state).ready_at == old(state).ready_at
            && final(state).expires_at == old(state).expires_at,
        !claimed ==> *final(state) == *old(state),
{
    let held = match (&state.claim_id, state.claim_expires_at) {
        (Some(_), Some(until)) => now < until,
        _ => false,
    };
    if state.consumed_at.is_none() && state.ready_at <= now && now < state.expires_at && !held {
        state.claim_id = Some(claim_id.to_owned());
        state.claim_expires_at = Some(now + NONCE_CLAIM_SECONDS * MICROS_PER_SECOND);
        true
    } else {
        false
    }
}

/// Collect a credential under the claim `claim_id`, clearing the claim.
pub fn finalize_deferred(state: &mut DeferredState, claim_id: &str, now: i64) -> (collected: bool)
    ensures
        collected == (deferred_claimed_by(*old(state), claim_id@) && old(state).consumed_at is None && now
            < old(state).expires_at),
        collected ==> *final(state) == (DeferredState {
            consumed_at: Some(if now >= old(state).ready_at { now } else { old(state).ready_at }),
            claim_id: None,
            claim_expires_at: None,
            ..*old(state)
        }),
        !collected ==> *final(state) == *old(state),
{
    let owned = match &state.claim_id {
        Some(id) => text_equals(id.as_str(), claim_id),
        None => false,
    };
    if owned && state.consumed_at.is_none() && now < state.expires_at {
        state.consumed_at = Some(latest(now, state.ready_at));
        state.claim_id = None;
        state.claim_expires_at = None;
        true
    } else {
        false
    }
}

/// Give up the claim `claim_id` on an uncollected credential.
pub fn release_deferred(state: &mut DeferredState, claim_id: &str) -> (released: bool)
    ensures
        released == (deferred_claimed_by(*old(state), claim_id@) && old(state).consumed_at is None),
        released ==> *final(state) == (DeferredState { claim_id: None, claim_expires_at: None, ..*old(state) }),
        !released ==> *final(state) == *old(state),
{
    let owned = match &state.claim_id {
        Some(id) => text_equals(id.as_str(), claim_id),
        None => false,
    };
    if owned && state.consumed_at.is_none() {
        state.claim_id = None;
        state.claim_expires_at = None;
        true
    } else {
        false
    }
}

/// A deferred credential is delivered at most once: once collected it is
/// never collectable again, and no claim can be finalized on it.
pub proof fn lemma_deferred_single_delivery(state: DeferredState, later: i64, claim_id: Seq<char>)
    requires
        state.consumed_at is Some,
    ensures
        !deferred_collectable(state, later),
        !(deferred_claimed_by(state, claim_id) && state.consumed_at is None),
{
}

/// Read a stored response encoding name.
pub open spec fn response_encoding_from_text(text: Seq<char>) -> Option<CredentialResponseEncoding> {
    if text == "json"@ {
        Some(CredentialResponseEncoding::Json)
    } else if text == "jwt"@ {
        Some(CredentialResponseEncoding::Jwt)
    } else {
        None
    }
}

/// Reading back a stored encoding name gives the encoding that was stored.
pub proof fn lemma_response_encoding_round_trip(encoding: CredentialResponseEncoding)
    ensures
        response_encoding_from_text(response_encoding_text(encoding)) == Some(encoding),
{
    reveal_strlit("json");
    reveal_strlit("jwt");
    assert("json"@ != "jwt"@) by {
        assert("json"@.len() != "jwt"@.len());
    }
}

pub fn parse_response_encoding(value: &str) -> (result: Result<CredentialResponseEncoding, CredentialStoreError>)
    ensures
        match response_encoding_from_text(value@) {
            Some(encoding) => result == Ok::<CredentialResponseEncoding, CredentialStoreError>(encoding),
            None => result == Err::<CredentialResponseEncoding, CredentialStoreError>(
                CredentialStoreError::InvalidTransition,
            ),
        },
{
    if text_equals(value, "json") {
        Ok(CredentialResponseEncoding::Json)
    } else if text_equals(value, "jwt") {
        Ok(CredentialResponseEncoding::Jwt)
    } else {
        Err(CredentialStoreError::InvalidTransition)
    }
}

/// A replayable credential response was stored with status 200 or 202.
pub fn stored_response_status(status: i16) -> (result: Result<u16, CredentialStoreError>)
    ensures
        status == 200 || status == 202 ==> result == Ok::<u16, CredentialStoreError>(status as u16),
        !(status == 200 || status == 202) ==> result == Err::<u16, CredentialStoreError>(
            CredentialStoreError::InvalidTransition,
        ),
{
    if status == 200 || status == 202 {
        Ok(status as u16)
    } else {
        Err(CredentialStoreError::InvalidTransition)
    }
}

/// A response status as stored: it must fit the signed column.
pub fn response_status_column(status: u16) -> (result: Result<i16, CredentialStoreError>)
    ensures
        status <= i16::MAX ==> result == Ok::<i16, CredentialStoreError>(status as i16),
        status > i16::MAX ==> result == Err::<i16, CredentialStoreError>(CredentialStoreError::InvalidTransition),
{
    if status > 32767 {
        Err(CredentialStoreError::InvalidTransition)
    } else {
        Ok(status as i16)
    }
}

} // verus!
