//! The one-time initial administrator bootstrap: installing the bootstrap
//! token, claiming it exactly once, and replaying the durable receipt of a
//! completed claim.

use vstd::prelude::*;
use vstd::string::StringSliceAdditionalSpecFns;

use crate::digest::{lower_hex, lower_hex_of, sha256_hex, sha256_of};
use crate::encoding::{be_bytes_u128, uuid_bytes};
use crate::error::RepositoryError;
use crate::text::{string_from_chars, text_chars, text_equals};

verus! {

/// Advisory lock key that serialises every bootstrap transaction.
pub const INITIAL_ADMIN_BOOTSTRAP_LOCK: i64 = 564_196_923_451_771_042;
/// Receipt format written with a completed claim.
pub const BOOTSTRAP_RECEIPT_VERSION: i16 = 1;

/// The claim result recorded in a receipt.
pub open spec fn claim_result_created() -> Seq<char> {
    "created"@
}

/// The singleton bootstrap row.  Times are microseconds since the epoch.
#[derive(Clone, Debug)]
pub struct BootstrapRow {
    pub token_hash: String,
    pub expires_at: i64,
    pub consumed_at: Option<i64>,
    pub request_id: Option<String>,
    pub request_email_hash: Option<String>,
    pub claimed_user_id: Option<u128>,
    pub claim_result: Option<String>,
    pub receipt_version: Option<i16>,
    pub claimed_at: Option<i64>,
}

/// What the bootstrap endpoint may offer.
#[derive(Clone, Debug, PartialEq, Eq)]
pub enum InitialAdminBootstrapState {
    /// Bootstrap is over (an administrator exists, or a claim left no receipt).
    Closed,
    /// This instance's token is installed until `expires_at`.
    Ready { expires_at: i64 },
    /// A claim completed; its receipt can be replayed with the same token.
    Claimed { expires_at: i64, expected_token_hash: String },
    /// Another instance's unexpired token is installed.
    OwnedByAnotherInstance { expires_at: i64 },
}

/// The answer to a claim request.
#[derive(Clone, Debug, PartialEq, Eq)]
pub enum InitialAdminClaimOutcome {
    Created { request_id: String, id: u128, email: String },
    Closed,
    InvalidOrExpired,
    EmailConflict,
    IdempotencyConflict,
}

/// A consumed row carries a complete receipt when every receipt field is
/// present, the result is `created` and the receipt version is 1.
pub open spec fn receipt_complete(row: BootstrapRow) -> bool {
    &&& row.request_id is Some
    &&& row.request_email_hash is Some
    &&& row.claimed_user_id is Some
    &&& row.claim_result matches Some(result) && result@ == claim_result_created()
    &&& row.receipt_version == Some(BOOTSTRAP_RECEIPT_VERSION)
    &&& row.claimed_at is Some
}

fn is_created(result: &Option<String>) -> (created: bool)
    ensures
        created == (*result matches Some(r) && r@ == claim_result_created()),
{
    match result {
        Some(r) => text_equals(r.as_str(), "created"),
        None => false,
    }
}

fn has_complete_receipt(row: &BootstrapRow) -> (complete: bool)
    ensures
        complete == receipt_complete(*row),
{
    row.request_id.is_some() && row.request_email_hash.is_some() && row.claimed_user_id.is_some()
        && is_created(&row.claim_result) && row.receipt_version == Some(BOOTSTRAP_RECEIPT_VERSION)
        && row.claimed_at.is_some()
}

/// The write that installing the token makes.
#[derive(Clone, Copy, Debug, PartialEq, Eq, Structural)]
pub enum BootstrapWrite {
    /// Leave the row as it is.
    Keep,
    /// Delete the bootstrap row: an administrator already exists.
    Delete,
    /// Install (insert or overwrite) this instance's token and expiry with an
    /// empty receipt.
    Install,
}

/// The decision of `ensure_claim`: what to write, and the state to report.
pub open spec fn ensure_claim_plan(
    existing: Option<BootstrapRow>,
    administrator_exists: bool,
    token_hash: Seq<char>,
    expires_at: i64,
    now: i64,
) -> (BootstrapWrite, InitialAdminBootstrapState) {
    match existing {
        Some(row) => if row.consumed_at is Some {
            if receipt_complete(row) {
                (
                    BootstrapWrite::Keep,
                    InitialAdminBootstrapState::Claimed {
                        expires_at: row.expires_at,
                        expected_token_hash: row.token_hash,
                    },
                )
            } else {
                (BootstrapWrite::Keep, InitialAdminBootstrapState::Closed)
            }
        } else if administrator_exists {
            (BootstrapWrite::Delete, InitialAdminBootstrapState::Closed)
        } else if row.expires_at > now {
            if row.token_hash@ == token_hash {
                (BootstrapWrite::Keep, InitialAdminBootstrapState::Ready { expires_at: row.expires_at })
            } else {
                (
                    BootstrapWrite::Keep,
                    InitialAdminBootstrapState::OwnedByAnotherInstance { expires_at: row.expires_at },
                )
            }
        } else {
            (BootstrapWrite::Install, InitialAdminBootstrapState::Ready { expires_at })
        },
        None => if administrator_exists {
            (BootstrapWrite::Delete, InitialAdminBootstrapState::Closed)
        } else {
            (BootstrapWrite::Install, InitialAdminBootstrapState::Ready { expires_at })
        },
    }
}

/// Install this instance's bootstrap token (`token_hash`, valid until
/// `expires_at`) against the locked row read in the same transaction.  A
/// consumed row is reported, never overwritten: with a complete receipt as
/// `Claimed`, without one as `Closed`.  An existing administrator closes
/// bootstrap for good.  An unexpired token is kept: `Ready` when it is this
/// instance's, else owned by another instance.  Otherwise the token is
/// installed.
pub fn ensure_claim(
    existing: Option<&BootstrapRow>,
    administrator_exists: bool,
    token_hash: &str,
    expires_at: i64,
    now: i64,
) -> (plan: (BootstrapWrite, InitialAdminBootstrapState))
    ensures
        plan == ensure_claim_plan(
            match existing {
                Some(row) => Some(*row),
                None => None,
            },
            administrator_exists,
            token_hash@,
            expires_at,
            now,
        ),
{
    if let Some(row) = existing {
        if row.consumed_at.is_some() {
            if has_complete_receipt(row) {
                return (
                    BootstrapWrite::Keep,
                    InitialAdminBootstrapState::Claimed {
                        expires_at: row.expires_at,
                        expected_token_hash: row.token_hash.clone(),
                    },
                );
            }
            return (BootstrapWrite::Keep, InitialAdminBootstrapState::Closed);
        }
    }
    if administrator_exists {
        return (BootstrapWrite::Delete, InitialAdminBootstrapState::Closed);
    }
    if let Some(row) = existing {
        if row.expires_at > now {
            if text_equals(row.token_hash.as_str(), token_hash) {
                return (BootstrapWrite::Keep, InitialAdminBootstrapState::Ready { expires_at: row.expires_at });
            }
            return (
                BootstrapWrite::Keep,
                InitialAdminBootstrapState::OwnedByAnotherInstance { expires_at: row.expires_at },
            );
        }
    }
    (BootstrapWrite::Install, InitialAdminBootstrapState::Ready { expires_at })
}

/// Lowercase-hex SHA-256 of a text, as receipts store the claimant email.
pub fn hash_value(value: &str) -> (hash: String)
    ensures
        hash@ == lower_hex_of(sha256_of(value.spec_bytes())),
        hash@.len() == 64,
{
    sha256_hex(value)
}

/// The next step of a claim.
#[derive(Clone, Debug, PartialEq, Eq)]
pub enum ClaimStep {
    /// Answer with this outcome; nothing is written.
    Respond(InitialAdminClaimOutcome),
    /// The request repeats the completed claim of user `id`: answer
    /// `Created` once the claim's single success audit event is confirmed.
    ConfirmReplay(u128),
    /// Create the administrator and record the receipt.
    CreateAdministrator,
}

/// The claim decision over the locked bootstrap row (`None`: no token was
/// ever installed), the request, and two facts read in the same
/// transaction: whether an administrator exists, and whether the email is
/// already taken in the tenant.
pub open spec fn claim_step(
    claim: Option<BootstrapRow>,
    request_id: Seq<char>,
    token_hash: Seq<char>,
    email_hash: Seq<char>,
    administrator_exists: bool,
    email_taken: bool,
    now: i64,
) -> ClaimStep {
    match claim {
        None => ClaimStep::Respond(InitialAdminClaimOutcome::InvalidOrExpired),
        Some(row) => if row.consumed_at is Some {
            if row.request_id is None && row.request_email_hash is None && row.claimed_user_id is None
                && row.claim_result is None && row.receipt_version is None {
                ClaimStep::Respond(InitialAdminClaimOutcome::Closed)
            } else if row.token_hash@ != token_hash {
                ClaimStep::Respond(InitialAdminClaimOutcome::InvalidOrExpired)
            } else if !(row.request_id matches Some(r) && r@ == request_id) || !(
            row.request_email_hash matches Some(h) && h@ == email_hash) || !(row.claim_result matches Some(
                c,
            ) && c@ == claim_result_created()) || row.receipt_version != Some(BOOTSTRAP_RECEIPT_VERSION) {
                ClaimStep::Respond(InitialAdminClaimOutcome::IdempotencyConflict)
            } else {
                match row.claimed_user_id {
                    Some(id) => ClaimStep::ConfirmReplay(id),
                    None => ClaimStep::Respond(InitialAdminClaimOutcome::IdempotencyConflict),
                }
            }
        } else if administrator_exists {
            ClaimStep::Respond(InitialAdminClaimOutcome::Closed)
        } else if row.token_hash@ != token_hash || row.expires_at <= now {
            ClaimStep::Respond(InitialAdminClaimOutcome::InvalidOrExpired)
        } else if email_taken {
            ClaimStep::Respond(InitialAdminClaimOutcome::EmailConflict)
        } else {
            ClaimStep::CreateAdministrator
        },
    }
}

fn optional_text_is(value: &Option<String>, expected: &str) -> (same: bool)
    ensures
        same == (*value matches Some(v) && v@ == expected@),
{
    match value {
        Some(v) => text_equals(v.as_str(), expected),
        None => false,
    }
}

/// Decide a claim.  A consumed row answers only the request that consumed
/// it: a row without receipt is closed, another token is invalid, another
/// request id or email is an idempotency conflict, and the same request
/// replays its result.  An unconsumed row is claimable with its unexpired
/// token while no administrator exists and the email is free.
pub fn decide_claim(
    claim: Option<&BootstrapRow>,
    request_id: &str,
    token_hash: &str,
    email_hash: &str,
    administrator_exists: bool,
    email_taken: bool,
    now: i64,
) -> (step: ClaimStep)
    ensures
        step == claim_step(
            match claim {
                Some(row) => Some(*row),
                None => None,
            },
            request_id@,
            token_hash@,
            email_hash@,
            administrator_exists,
            email_taken,
            now,
        ),
{
    let Some(row) = claim else {
        return ClaimStep::Respond(InitialAdminClaimOutcome::InvalidOrExpired);
    };
    if row.consumed_at.is_some() {
        if row.request_id.is_none() && row.request_email_hash.is_none() && row.claimed_user_id.is_none()
            && row.claim_result.is_none() && row.receipt_version.is_none() {
            return ClaimStep::Respond(InitialAdminClaimOutcome::Closed);
        }
        if !text_equals(row.token_hash.as_str(), token_hash) {
            return ClaimStep::Respond(InitialAdminClaimOutcome::InvalidOrExpired);
        }
        if !optional_text_is(&row.request_id, request_id) || !optional_text_is(&row.request_email_hash, email_hash)
            || !is_created(&row.claim_result) || row.receipt_version != Some(BOOTSTRAP_RECEIPT_VERSION) {
            return ClaimStep::Respond(InitialAdminClaimOutcome::IdempotencyConflict);
        }
        return match row.claimed_user_id {
            Some(id) => ClaimStep::ConfirmReplay(id),
            None => ClaimStep::Respond(InitialAdminClaimOutcome::IdempotencyConflict),
        };
    }
    if administrator_exists {
        return ClaimStep::Respond(InitialAdminClaimOutcome::Closed);
    }
    if !text_equals(row.token_hash.as_str(), token_hash) || row.expires_at <= now {
        return ClaimStep::Respond(InitialAdminClaimOutcome::InvalidOrExpired);
    }
    if email_taken {
        return ClaimStep::Respond(InitialAdminClaimOutcome::EmailConflict);
    }
    ClaimStep::CreateAdministrator
}

/// A replayed claim answers `Created` only when exactly one success audit
/// event of the bootstrap exists for the request and user; anything else
/// means the receipt lost its evidence.
pub fn confirm_replayed_claim(audit_count: i64, request_id: &str, id: u128, email: &str) -> (result: Result<
    InitialAdminClaimOutcome,
    RepositoryError,
>)
    ensures
        audit_count == 1 ==> (result matches Ok(InitialAdminClaimOutcome::Created { request_id: r, id: i, email: e })
            && r@ == request_id@ && i == id && e@ == email@),
        audit_count != 1 ==> result == Err::<InitialAdminClaimOutcome, RepositoryError>(RepositoryError::NotFound),
{
    if audit_count != 1 {
        return Err(RepositoryError::NotFound);
    }
    Ok(InitialAdminClaimOutcome::Created { request_id: request_id.to_owned(), id, email: email.to_owned() })
}

/// The username of the bootstrap administrator: `admin_` followed by the
/// 32 lowercase hex digits of its id.
pub open spec fn admin_username_of(id: u128) -> Seq<char> {
    "admin_"@ + lower_hex_of(be_bytes_u128(id))
}

pub fn admin_username(id: u128) -> (username: String)
    ensures
        username@ == admin_username_of(id),
{
    let hex = lower_hex(uuid_bytes(id).as_slice());
    let hex_chars = text_chars(hex.as_str());
    let mut chars: Vec<char> = vec!['a', 'd', 'm', 'i', 'n', '_'];
    proof {
        reveal_strlit("admin_");
    }
    assert(chars@ =~= "admin_"@);
    let mut i: usize = 0;
    while i < hex_chars.len()
        invariant
            i <= hex_chars@.len(),
            chars@ == "admin_"@ + hex_chars@.take(i as int),
        decreases hex_chars@.len() - i,
    {
        assert(hex_chars@.take(i + 1) =~= hex_chars@.take(i as int).push(hex_chars@[i as int]));
        chars.push(hex_chars[i]);
        i = i + 1;
    }
    assert(hex_chars@.take(hex_chars@.len() as int) =~= hex_chars@);
    string_from_chars(chars.as_slice())
}

/// `claimed` is the receipt of a claim of `row` by the request
/// `request_id` with email hash `email_hash`, creating user `id` at `now`:
/// the token and expiry stay, every receipt field is recorded.
pub open spec fn is_claim_receipt(
    claimed: BootstrapRow,
    row: BootstrapRow,
    request_id: Seq<char>,
    email_hash: Seq<char>,
    id: u128,
    now: i64,
) -> bool {
    &&& claimed.token_hash == row.token_hash
    &&& claimed.expires_at == row.expires_at
    &&& claimed.consumed_at == Some(now)
    &&& claimed.request_id matches Some(r) && r@ == request_id
    &&& claimed.request_email_hash matches Some(h) && h@ == email_hash
    &&& claimed.claimed_user_id == Some(id)
    &&& claimed.claim_result matches Some(c) && c@ == claim_result_created()
    &&& claimed.receipt_version == Some(BOOTSTRAP_RECEIPT_VERSION)
    &&& claimed.claimed_at == Some(now)
}

/// Record the receipt of a claim that created user `id` at `now`.
pub fn record_claim(row: BootstrapRow, request_id: &str, email_hash: &str, id: u128, now: i64) -> (claimed: BootstrapRow)
    ensures
        is_claim_receipt(claimed, row, request_id@, email_hash@, id, now),
{
    let created = "created".to_owned();
    BootstrapRow {
        consumed_at: Some(now),
        request_id: Some(request_id.to_owned()),
        request_email_hash: Some(email_hash.to_owned()),
        claimed_user_id: Some(id),
        claim_result: Some(created),
        receipt_version: Some(BOOTSTRAP_RECEIPT_VERSION),
        claimed_at: Some(now),
        ..row
    }
}

/// A claim creates the administrator only on an unconsumed row, with the
/// installed unexpired token, while no administrator exists and the email
/// is free.
pub proof fn lemma_claim_creates_only_when_open(
    claim: Option<BootstrapRow>,
    request_id: Seq<char>,
    token_hash: Seq<char>,
    email_hash: Seq<char>,
    administrator_exists: bool,
    email_taken: bool,
    now: i64,
)
    requires
        claim_step(claim, request_id, token_hash, email_hash, administrator_exists, email_taken, now)
            == ClaimStep::CreateAdministrator,
    ensures
        claim matches Some(row) && row.consumed_at is None && row.token_hash@ == token_hash && now
            < row.expires_at,
        !administrator_exists,
        !email_taken,
{
}

/// What a claim on an unconsumed row answers, in terms of what was read:
/// an existing administrator closes it; otherwise another or an expired
/// token is refused; otherwise a taken email conflicts; otherwise the
/// administrator is created.  No installed row refuses every token.
pub proof fn lemma_claim_on_open_row(
    claim: Option<BootstrapRow>,
    request_id: Seq<char>,
    token_hash: Seq<char>,
    email_hash: Seq<char>,
    administrator_exists: bool,
    email_taken: bool,
    now: i64,
)
    ensures
        claim is None ==> claim_step(claim, request_id, token_hash, email_hash, administrator_exists, email_taken, now)
            == ClaimStep::Respond(InitialAdminClaimOutcome::InvalidOrExpired),
        claim matches Some(row) && row.consumed_at is None ==> claim_step(
            claim,
            request_id,
            token_hash,
            email_hash,
            administrator_exists,
            email_taken,
            now,
        ) == if administrator_exists {
            ClaimStep::Respond(InitialAdminClaimOutcome::Closed)
        } else if claim->0.token_hash@ != token_hash || claim->0.expires_at <= now {
            ClaimStep::Respond(InitialAdminClaimOutcome::InvalidOrExpired)
        } else if email_taken {
            ClaimStep::Respond(InitialAdminClaimOutcome::EmailConflict)
        } else {
            ClaimStep::CreateAdministrator
        },
{
}

/// The claim is idempotent and single-use: once a claim is recorded, the
/// same request (same id, token and email) replays the created user, while
/// any other request id or email is an idempotency conflict and any other
/// token is refused, whatever the other facts read.
pub proof fn lemma_claim_receipt_replays(
    claimed: BootstrapRow,
    row: BootstrapRow,
    request_id: Seq<char>,
    email_hash: Seq<char>,
    id: u128,
    now: i64,
    other_request_id: Seq<char>,
    other_token_hash: Seq<char>,
    other_email_hash: Seq<char>,
    administrator_exists: bool,
    email_taken: bool,
    later: i64,
)
    requires
        is_claim_receipt(claimed, row, request_id, email_hash, id, now),
    ensures
        claim_step(Some(claimed), request_id, row.token_hash@, email_hash, administrator_exists, email_taken, later)
            == ClaimStep::ConfirmReplay(id),
        other_token_hash != row.token_hash@ ==> claim_step(
            Some(claimed),
            other_request_id,
            other_token_hash,
            other_email_hash,
            administrator_exists,
            email_taken,
            later,
        ) == ClaimStep::Respond(InitialAdminClaimOutcome::InvalidOrExpired),
        other_request_id != request_id || other_email_hash != email_hash ==> claim_step(
            Some(claimed),
            other_request_id,
            row.token_hash@,
            other_email_hash,
            administrator_exists,
            email_taken,
            later,
        ) == ClaimStep::Respond(InitialAdminClaimOutcome::IdempotencyConflict),
{
}

/// A consumed bootstrap row is never overwritten or deleted by installing
/// a token; after a recorded claim, installing reports `Claimed` with the
/// claimed token and expiry.
pub proof fn lemma_ensure_claim_keeps_receipts(
    existing: BootstrapRow,
    administrator_exists: bool,
    token_hash: Seq<char>,
    expires_at: i64,
    now: i64,
    row: BootstrapRow,
    request_id: Seq<char>,
    email_hash: Seq<char>,
    id: u128,
    claimed_at: i64,
)
    ensures
        existing.consumed_at is Some ==> ensure_claim_plan(
            Some(existing),
            administrator_exists,
            token_hash,
            expires_at,
            now,
        ).0 == BootstrapWrite::Keep,
        is_claim_receipt(existing, row, request_id, email_hash, id, claimed_at) ==> ensure_claim_plan(
            Some(existing),
            administrator_exists,
            token_hash,
            expires_at,
            now,
        ) == (
            BootstrapWrite::Keep,
            InitialAdminBootstrapState::Claimed { expires_at: row.expires_at, expected_token_hash: row.token_hash },
        ),
{
}

/// `row` is the bootstrap row as installing a token writes it: this
/// token and expiry, nothing consumed, no receipt.
pub open spec fn installed_as(row: BootstrapRow, token_hash: Seq<char>, expires_at: i64) -> bool {
    &&& row.token_hash@ == token_hash
    &&& row.expires_at == expires_at
    &&& row.consumed_at is None
    &&& row.request_id is None
    &&& row.request_email_hash is None
    &&& row.claimed_user_id is None
    &&& row.claim_result is None
    &&& row.receipt_version is None
    &&& row.claimed_at is None
}

/// An existing administrator closes bootstrap for good: whenever one exists
/// and no claim was recorded, installing deletes the row and reports
/// `Closed`, whatever token or expiry the row holds.  A recorded claim is
/// never deleted or overwritten.  Without an administrator an unconsumed
/// row is replaced only once expired.
pub proof fn lemma_administrator_closes_bootstrap(
    existing: Option<BootstrapRow>,
    administrator_exists: bool,
    token_hash: Seq<char>,
    expires_at: i64,
    now: i64,
)
    ensures
        administrator_exists && (existing is None || existing->0.consumed_at is None) ==> ensure_claim_plan(
            existing,
            administrator_exists,
            token_hash,
            expires_at,
            now,
        ) == (BootstrapWrite::Delete, InitialAdminBootstrapState::Closed),
        existing matches Some(row) && row.consumed_at is Some ==> ensure_claim_plan(
            existing,
            administrator_exists,
            token_hash,
            expires_at,
            now,
        ).0 == BootstrapWrite::Keep,
        ensure_claim_plan(existing, administrator_exists, token_hash, expires_at, now).0 == BootstrapWrite::Delete
            ==> administrator_exists,
        ensure_claim_plan(existing, administrator_exists, token_hash, expires_at, now).0 == BootstrapWrite::Install
            ==> !administrator_exists && (existing is None || (existing->0.consumed_at is None
            && existing->0.expires_at <= now)),
{
}

/// The row that [`BootstrapWrite::Install`] writes (insert or overwrite).
pub fn installed_row(token_hash: &str, expires_at: i64) -> (row: BootstrapRow)
    ensures
        installed_as(row, token_hash@, expires_at),
{
    BootstrapRow {
        token_hash: token_hash.to_owned(),
        expires_at,
        consumed_at: None,
        request_id: None,
        request_email_hash: None,
        claimed_user_id: None,
        claim_result: None,
        receipt_version: None,
        claimed_at: None,
    }
}

pub open spec fn ready_state(expires_at: i64) -> InitialAdminBootstrapState {
    InitialAdminBootstrapState::Ready { expires_at }
}

/// What installing answers while the token `installed_token_hash` is
/// installed and unexpired: keep the row, `Ready` to the same token and
/// `OwnedByAnotherInstance` to any other.
pub open spec fn kept_install(
    installed_token_hash: Seq<char>,
    token_hash: Seq<char>,
    expires_at: i64,
) -> (BootstrapWrite, InitialAdminBootstrapState) {
    if token_hash == installed_token_hash {
        (BootstrapWrite::Keep, InitialAdminBootstrapState::Ready { expires_at })
    } else {
        (BootstrapWrite::Keep, InitialAdminBootstrapState::OwnedByAnotherInstance { expires_at })
    }
}

/// Installing happens exactly when no administrator exists and no row is
/// installed or the installed one is unconsumed and expired, and reports
/// `Ready`.  Until the installed token expires, with no administrator and
/// no claim in between, every later install keeps the row: it reports
/// `Ready` with the stored expiry to the same token and
/// `OwnedByAnotherInstance` to any other.
pub proof fn lemma_installed_token_is_kept(
    existing: Option<BootstrapRow>,
    token_hash: Seq<char>,
    expires_at: i64,
    now: i64,
    installed: BootstrapRow,
    later_token_hash: Seq<char>,
    later_expires_at: i64,
    later: i64,
)
    requires
        ensure_claim_plan(existing, false, token_hash, expires_at, now).0 == BootstrapWrite::Install,
        installed_as(installed, token_hash, expires_at),
        later < expires_at,
    ensures
        existing is None || (existing->0.consumed_at is None && existing->0.expires_at <= now),
        ensure_claim_plan(existing, false, token_hash, expires_at, now).1 == ready_state(expires_at),
        ensure_claim_plan(Some(installed), false, later_token_hash, later_expires_at, later) == kept_install(
            token_hash,
            later_token_hash,
            expires_at,
        ),
{
}

/// The administrator a successful claim creates.
#[derive(Clone, Debug, PartialEq, Eq)]
pub struct BootstrapAdministrator {
    pub id: u128,
    pub tenant_id: u128,
    pub realm_id: u128,
    pub organization_id: u128,
    pub username: String,
    pub email: String,
    pub password_hash: String,
    pub email_verified: bool,
    pub role: String,
    pub admin_level: i32,
}

/// Everything a successful claim writes and answers.
#[derive(Clone, Debug)]
pub struct InitialAdminCreation {
    pub administrator: BootstrapAdministrator,
    /// The bootstrap row with its receipt recorded.
    pub receipt: BootstrapRow,
    pub outcome: InitialAdminClaimOutcome,
}

/// Create the bootstrap administrator `id` (decided by [`decide_claim`]):
/// a verified-email user of the tenant with role `admin` at admin level 1
/// and username `admin_<id in hex>`; record the receipt of the claim on the
/// row, with the lowercase-hex SHA-256 of the email; answer `Created`.
pub fn create_initial_admin(
    row: BootstrapRow,
    tenant_id: u128,
    realm_id: u128,
    organization_id: u128,
    request_id: &str,
    email: &str,
    password_hash: &str,
    id: u128,
    now: i64,
) -> (creation: InitialAdminCreation)
    ensures
        creation.administrator.id == id,
        creation.administrator.tenant_id == tenant_id,
        creation.administrator.realm_id == realm_id,
        creation.administrator.organization_id == organization_id,
        creation.administrator.username@ == admin_username_of(id),
        creation.administrator.email@ == email@,
        creation.administrator.password_hash@ == password_hash@,
        creation.administrator.email_verified,
        creation.administrator.role@ == "admin"@,
        creation.administrator.admin_level == 1,
        is_claim_receipt(
            creation.receipt,
            row,
            request_id@,
            lower_hex_of(sha256_of(email.spec_bytes())),
            id,
            now,
        ),
        creation.outcome matches InitialAdminClaimOutcome::Created { request_id: r, id: i, email: e } && r@
            == request_id@ && i == id && e@ == email@,
{
    let email_hash = hash_value(email);
    let administrator = BootstrapAdministrator {
        id,
        tenant_id,
        realm_id,
        organization_id,
        username: admin_username(id),
        email: email.to_owned(),
        password_hash: password_hash.to_owned(),
        email_verified: true,
        role: "admin".to_owned(),
        admin_level: 1,
    };
    let receipt = record_claim(row, request_id, email_hash.as_str(), id, now);
    let outcome = InitialAdminClaimOutcome::Created { request_id: request_id.to_owned(), id, email: email.to_owned() };
    InitialAdminCreation { administrator, receipt, outcome }
}

} // verus!
