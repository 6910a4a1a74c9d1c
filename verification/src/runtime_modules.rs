//! Runtime module state: the stored encodings of modules, modes, states and
//! events; revision arithmetic; the compare-and-set rules for desired and
//! actual (instance) state; and event paging.

use vstd::prelude::*;

use crate::encoding::{parse_uuid_text, uuid_parse_error_of, uuid_parse_of, uuid_text, uuid_text_of};
use crate::error::{consistency, RepositoryError};
use crate::text::{concat_text, string_from_chars, text_equals};

verus! {

/// The runtime-toggleable protocol modules, in catalog order.
#[derive(Clone, Copy, Debug, PartialEq, Eq, Structural)]
pub enum ModuleId {
    DeviceAuthorization,
    TokenExchange,
    JwtBearerGrant,
    Ciba,
    DynamicClientRegistration,
    RequestObjects,
    Jarm,
    AuthorizationDetails,
    HttpMessageSignatures,
    Scim,
    ScimSecurityEvents,
    NativeSso,
    FrontchannelLogout,
    SessionManagement,
    Openid4vciIssuer,
    Openid4vpVerifier,
}

/// The stored name of each module.
pub open spec fn module_id_text(module: ModuleId) -> Seq<char> {
    match module {
        ModuleId::DeviceAuthorization => "device_authorization"@,
        ModuleId::TokenExchange => "token_exchange"@,
        ModuleId::JwtBearerGrant => "jwt_bearer_grant"@,
        ModuleId::Ciba => "ciba"@,
        ModuleId::DynamicClientRegistration => "dynamic_client_registration"@,
        ModuleId::RequestObjects => "request_objects"@,
        ModuleId::Jarm => "jarm"@,
        ModuleId::AuthorizationDetails => "authorization_details"@,
        ModuleId::HttpMessageSignatures => "http_message_signatures"@,
        ModuleId::Scim => "scim"@,
        ModuleId::ScimSecurityEvents => "scim_security_events"@,
        ModuleId::NativeSso => "native_sso"@,
        ModuleId::FrontchannelLogout => "frontchannel_logout"@,
        ModuleId::SessionManagement => "session_management"@,
        ModuleId::Openid4vciIssuer => "openid4vci_issuer"@,
        ModuleId::Openid4vpVerifier => "openid4vp_verifier"@,
    }
}

/// The module with a stored name, if any.
pub open spec fn module_id_from_text(text: Seq<char>) -> Option<ModuleId> {
    if text == "device_authorization"@ {
        Some(ModuleId::DeviceAuthorization)
    } else if text == "token_exchange"@ {
        Some(ModuleId::TokenExchange)
    } else if text == "jwt_bearer_grant"@ {
        Some(ModuleId::JwtBearerGrant)
    } else if text == "ciba"@ {
        Some(ModuleId::Ciba)
    } else if text == "dynamic_client_registration"@ {
        Some(ModuleId::DynamicClientRegistration)
    } else if text == "request_objects"@ {
        Some(ModuleId::RequestObjects)
    } else if text == "jarm"@ {
        Some(ModuleId::Jarm)
    } else if text == "authorization_details"@ {
        Some(ModuleId::AuthorizationDetails)
    } else if text == "http_message_signatures"@ {
        Some(ModuleId::HttpMessageSignatures)
    } else if text == "scim"@ {
        Some(ModuleId::Scim)
    } else if text == "scim_security_events"@ {
        Some(ModuleId::ScimSecurityEvents)
    } else if text == "native_sso"@ {
        Some(ModuleId::NativeSso)
    } else if text == "frontchannel_logout"@ {
        Some(ModuleId::FrontchannelLogout)
    } else if text == "session_management"@ {
        Some(ModuleId::SessionManagement)
    } else if text == "openid4vci_issuer"@ {
        Some(ModuleId::Openid4vciIssuer)
    } else if text == "openid4vp_verifier"@ {
        Some(ModuleId::Openid4vpVerifier)
    } else {
        None
    }
}

/// The position of a module in the catalog; locks are taken in this order.
pub open spec fn module_rank(module: ModuleId) -> nat {
    match module {
        ModuleId::DeviceAuthorization => 0,
        ModuleId::TokenExchange => 1,
        ModuleId::JwtBearerGrant => 2,
        ModuleId::Ciba => 3,
        ModuleId::DynamicClientRegistration => 4,
        ModuleId::RequestObjects => 5,
        ModuleId::Jarm => 6,
        ModuleId::AuthorizationDetails => 7,
        ModuleId::HttpMessageSignatures => 8,
        ModuleId::Scim => 9,
        ModuleId::ScimSecurityEvents => 10,
        ModuleId::NativeSso => 11,
        ModuleId::FrontchannelLogout => 12,
        ModuleId::SessionManagement => 13,
        ModuleId::Openid4vciIssuer => 14,
        ModuleId::Openid4vpVerifier => 15,
    }
}

impl ModuleId {
    /// The stored name.
    pub fn as_str(self) -> (text: &'static str)
        ensures
            text@ == module_id_text(self),
    {
        match self {
            ModuleId::DeviceAuthorization => "device_authorization",
            ModuleId::TokenExchange => "token_exchange",
            ModuleId::JwtBearerGrant => "jwt_bearer_grant",
            ModuleId::Ciba => "ciba",
            ModuleId::DynamicClientRegistration => "dynamic_client_registration",
            ModuleId::RequestObjects => "request_objects",
            ModuleId::Jarm => "jarm",
            ModuleId::AuthorizationDetails => "authorization_details",
            ModuleId::HttpMessageSignatures => "http_message_signatures",
            ModuleId::Scim => "scim",
            ModuleId::ScimSecurityEvents => "scim_security_events",
            ModuleId::NativeSso => "native_sso",
            ModuleId::FrontchannelLogout => "frontchannel_logout",
            ModuleId::SessionManagement => "session_management",
            ModuleId::Openid4vciIssuer => "openid4vci_issuer",
            ModuleId::Openid4vpVerifier => "openid4vp_verifier",
        }
    }

    /// The catalog position.
    pub fn rank(self) -> (rank: u8)
        ensures
            rank == module_rank(self),
    {
        match self {
            ModuleId::DeviceAuthorization => 0,
            ModuleId::TokenExchange => 1,
            ModuleId::JwtBearerGrant => 2,
            ModuleId::Ciba => 3,
            ModuleId::DynamicClientRegistration => 4,
            ModuleId::RequestObjects => 5,
            ModuleId::Jarm => 6,
            ModuleId::AuthorizationDetails => 7,
            ModuleId::HttpMessageSignatures => 8,
            ModuleId::Scim => 9,
            ModuleId::ScimSecurityEvents => 10,
            ModuleId::NativeSso => 11,
            ModuleId::FrontchannelLogout => 12,
            ModuleId::SessionManagement => 13,
            ModuleId::Openid4vciIssuer => 14,
            ModuleId::Openid4vpVerifier => 15,
        }
    }
}

/// Distinct modules have distinct catalog positions.
proof fn lemma_rank_injective(a: ModuleId, b: ModuleId)
    requires
        module_rank(a) == module_rank(b),
    ensures
        a == b,
{
}

/// The module at a catalog position.
pub fn module_at_rank(rank: u8) -> (module: Option<ModuleId>)
    ensures
        rank < 16 ==> (module matches Some(m) && module_rank(m) == rank),
        rank >= 16 ==> module is None,
{
    match rank {
        0 => Some(ModuleId::DeviceAuthorization),
        1 => Some(ModuleId::TokenExchange),
        2 => Some(ModuleId::JwtBearerGrant),
        3 => Some(ModuleId::Ciba),
        4 => Some(ModuleId::DynamicClientRegistration),
        5 => Some(ModuleId::RequestObjects),
        6 => Some(ModuleId::Jarm),
        7 => Some(ModuleId::AuthorizationDetails),
        8 => Some(ModuleId::HttpMessageSignatures),
        9 => Some(ModuleId::Scim),
        10 => Some(ModuleId::ScimSecurityEvents),
        11 => Some(ModuleId::NativeSso),
        12 => Some(ModuleId::FrontchannelLogout),
        13 => Some(ModuleId::SessionManagement),
        14 => Some(ModuleId::Openid4vciIssuer),
        15 => Some(ModuleId::Openid4vpVerifier),
        _ => None,
    }
}

/// The error for a stored value outside its closed vocabulary.
fn unknown_value(prefix: &str, value: &str) -> (error: RepositoryError)
    ensures
        error matches RepositoryError::Consistency(text) && text@ == prefix@ + value@,
{
    RepositoryError::Consistency(concat_text(prefix, value))
}

/// Read a stored module name.
pub fn parse_module_id(value: &str) -> (result: Result<ModuleId, RepositoryError>)
    ensures
        match module_id_from_text(value@) {
            Some(module) => result == Ok::<ModuleId, RepositoryError>(module),
            None => result matches Err(RepositoryError::Consistency(text)) && text@
                == "unknown runtime module id: "@ + value@,
        },
{
    if text_equals(value, "device_authorization") {
        Ok(ModuleId::DeviceAuthorization)
    } else if text_equals(value, "token_exchange") {
        Ok(ModuleId::TokenExchange)
    } else if text_equals(value, "jwt_bearer_grant") {
        Ok(ModuleId::JwtBearerGrant)
    } else if text_equals(value, "ciba") {
        Ok(ModuleId::Ciba)
    } else if text_equals(value, "dynamic_client_registration") {
        Ok(ModuleId::DynamicClientRegistration)
    } else if text_equals(value, "request_objects") {
        Ok(ModuleId::RequestObjects)
    } else if text_equals(value, "jarm") {
        Ok(ModuleId::Jarm)
    } else if text_equals(value, "authorization_details") {
        Ok(ModuleId::AuthorizationDetails)
    } else if text_equals(value, "http_message_signatures") {
        Ok(ModuleId::HttpMessageSignatures)
    } else if text_equals(value, "scim") {
        Ok(ModuleId::Scim)
    } else if text_equals(value, "scim_security_events") {
        Ok(ModuleId::ScimSecurityEvents)
    } else if text_equals(value, "native_sso") {
        Ok(ModuleId::NativeSso)
    } else if text_equals(value, "frontchannel_logout") {
        Ok(ModuleId::FrontchannelLogout)
    } else if text_equals(value, "session_management") {
        Ok(ModuleId::SessionManagement)
    } else if text_equals(value, "openid4vci_issuer") {
        Ok(ModuleId::Openid4vciIssuer)
    } else if text_equals(value, "openid4vp_verifier") {
        Ok(ModuleId::Openid4vpVerifier)
    } else {
        Err(unknown_value("unknown runtime module id: ", value))
    }
}

/// Every module's stored name reads back as that module.
pub proof fn lemma_module_id_round_trip(module: ModuleId)
    ensures
        module_id_from_text(module_id_text(module)) == Some(module),
{
    reveal_strlit("device_authorization");
    reveal_strlit("token_exchange");
    reveal_strlit("jwt_bearer_grant");
    reveal_strlit("ciba");
    reveal_strlit("dynamic_client_registration");
    reveal_strlit("request_objects");
    reveal_strlit("jarm");
    reveal_strlit("authorization_details");
    reveal_strlit("http_message_signatures");
    reveal_strlit("scim");
    reveal_strlit("scim_security_events");
    reveal_strlit("native_sso");
    reveal_strlit("frontchannel_logout");
    reveal_strlit("session_management");
    reveal_strlit("openid4vci_issuer");
    reveal_strlit("openid4vp_verifier");
    assert("device_authorization"@.len() == 20 && "token_exchange"@.len() == 14
        && "jwt_bearer_grant"@.len() == 16 && "ciba"@.len() == 4
        && "dynamic_client_registration"@.len() == 27 && "request_objects"@.len() == 15
        && "jarm"@.len() == 4 && "authorization_details"@.len() == 21
        && "http_message_signatures"@.len() == 23 && "scim"@.len() == 4
        && "scim_security_events"@.len() == 20 && "native_sso"@.len() == 10
        && "frontchannel_logout"@.len() == 19 && "session_management"@.len() == 18
        && "openid4vci_issuer"@.len() == 17 && "openid4vp_verifier"@.len() == 18);
    assert("ciba"@[0] != "jarm"@[0] && "ciba"@[0] != "scim"@[0] && "jarm"@[0] != "scim"@[0]);
    assert("device_authorization"@[0] != "scim_security_events"@[0]);
    assert("session_management"@[0] != "openid4vp_verifier"@[0]);
}

/// What an operator asked a module to be.
#[derive(Clone, Copy, Debug, PartialEq, Eq, Structural)]
pub enum DesiredMode {
    Inherit,
    Enabled,
    Disabled,
}

pub open spec fn desired_mode_text(mode: DesiredMode) -> Seq<char> {
    match mode {
        DesiredMode::Inherit => "inherit"@,
        DesiredMode::Enabled => "enabled"@,
        DesiredMode::Disabled => "disabled"@,
    }
}

pub open spec fn desired_mode_from_text(text: Seq<char>) -> Option<DesiredMode> {
    if text == "inherit"@ {
        Some(DesiredMode::Inherit)
    } else if text == "enabled"@ {
        Some(DesiredMode::Enabled)
    } else if text == "disabled"@ {
        Some(DesiredMode::Disabled)
    } else {
        None
    }
}

impl DesiredMode {
    /// The stored name.
    pub fn as_str(self) -> (text: &'static str)
        ensures
            text@ == desired_mode_text(self),
    {
        match self {
            DesiredMode::Inherit => "inherit",
            DesiredMode::Enabled => "enabled",
            DesiredMode::Disabled => "disabled",
        }
    }
}

/// Read a stored desired mode.
pub fn parse_desired_mode(value: &str) -> (result: Result<DesiredMode, RepositoryError>)
    ensures
        match desired_mode_from_text(value@) {
            Some(mode) => result == Ok::<DesiredMode, RepositoryError>(mode),
            None => result matches Err(RepositoryError::Consistency(text)) && text@
                == "unknown runtime desired mode: "@ + value@,
        },
{
    if text_equals(value, "inherit") {
        Ok(DesiredMode::Inherit)
    } else if text_equals(value, "enabled") {
        Ok(DesiredMode::Enabled)
    } else if text_equals(value, "disabled") {
        Ok(DesiredMode::Disabled)
    } else {
        Err(unknown_value("unknown runtime desired mode: ", value))
    }
}

/// What a module actually is on an instance.
#[derive(Clone, Copy, Debug, PartialEq, Eq, Structural)]
pub enum ModuleState {
    Disabled,
    Starting,
    Enabled,
    Draining,
    Failed,
}

pub open spec fn module_state_text(state: ModuleState) -> Seq<char> {
    match state {
        ModuleState::Disabled => "disabled"@,
        ModuleState::Starting => "starting"@,
        ModuleState::Enabled => "enabled"@,
        ModuleState::Draining => "draining"@,
        ModuleState::Failed => "failed"@,
    }
}

pub open spec fn module_state_from_text(text: Seq<char>) -> Option<ModuleState> {
    if text == "disabled"@ {
        Some(ModuleState::Disabled)
    } else if text == "starting"@ {
        Some(ModuleState::Starting)
    } else if text == "enabled"@ {
        Some(ModuleState::Enabled)
    } else if text == "draining"@ {
        Some(ModuleState::Draining)
    } else if text == "failed"@ {
        Some(ModuleState::Failed)
    } else {
        None
    }
}

impl ModuleState {
    /// The stored name.
    pub fn as_str(self) -> (text: &'static str)
        ensures
            text@ == module_state_text(self),
    {
        match self {
            ModuleState::Disabled => "disabled",
            ModuleState::Starting => "starting",
            ModuleState::Enabled => "enabled",
            ModuleState::Draining => "draining",
            ModuleState::Failed => "failed",
        }
    }
}

/// Read a stored actual state.
pub fn parse_actual_state(value: &str) -> (result: Result<ModuleState, RepositoryError>)
    ensures
        match module_state_from_text(value@) {
            Some(state) => result == Ok::<ModuleState, RepositoryError>(state),
            None => result matches Err(RepositoryError::Consistency(text)) && text@
                == "unknown runtime actual state: "@ + value@,
        },
{
    if text_equals(value, "disabled") {
        Ok(ModuleState::Disabled)
    } else if text_equals(value, "starting") {
        Ok(ModuleState::Starting)
    } else if text_equals(value, "enabled") {
        Ok(ModuleState::Enabled)
    } else if text_equals(value, "draining") {
        Ok(ModuleState::Draining)
    } else if text_equals(value, "failed") {
        Ok(ModuleState::Failed)
    } else {
        Err(unknown_value("unknown runtime actual state: ", value))
    }
}

/// The kinds of module state events.
#[derive(Clone, Copy, Debug, PartialEq, Eq, Structural)]
pub enum ModuleEventType {
    DesiredStateChanged,
    TransitionStarted,
    TransitionCompleted,
    TransitionFailed,
    DrainStarted,
    DrainCompleted,
    StaleTransitionDiscarded,
}

pub open spec fn event_type_text(event_type: ModuleEventType) -> Seq<char> {
    match event_type {
        ModuleEventType::DesiredStateChanged => "desired_state_changed"@,
        ModuleEventType::TransitionStarted => "transition_started"@,
        ModuleEventType::TransitionCompleted => "transition_completed"@,
        ModuleEventType::TransitionFailed => "transition_failed"@,
        ModuleEventType::DrainStarted => "drain_started"@,
        ModuleEventType::DrainCompleted => "drain_completed"@,
        ModuleEventType::StaleTransitionDiscarded => "stale_transition_discarded"@,
    }
}

pub open spec fn event_type_from_text(text: Seq<char>) -> Option<ModuleEventType> {
    if text == "desired_state_changed"@ {
        Some(ModuleEventType::DesiredStateChanged)
    } else if text == "transition_started"@ {
        Some(ModuleEventType::TransitionStarted)
    } else if text == "transition_completed"@ {
        Some(ModuleEventType::TransitionCompleted)
    } else if text == "transition_failed"@ {
        Some(ModuleEventType::TransitionFailed)
    } else if text == "drain_started"@ {
        Some(ModuleEventType::DrainStarted)
    } else if text == "drain_completed"@ {
        Some(ModuleEventType::DrainCompleted)
    } else if text == "stale_transition_discarded"@ {
        Some(ModuleEventType::StaleTransitionDiscarded)
    } else {
        None
    }
}

impl ModuleEventType {
    /// The stored name.
    pub fn as_str(self) -> (text: &'static str)
        ensures
            text@ == event_type_text(self),
    {
        match self {
            ModuleEventType::DesiredStateChanged => "desired_state_changed",
            ModuleEventType::TransitionStarted => "transition_started",
            ModuleEventType::TransitionCompleted => "transition_completed",
            ModuleEventType::TransitionFailed => "transition_failed",
            ModuleEventType::DrainStarted => "drain_started",
            ModuleEventType::DrainCompleted => "drain_completed",
            ModuleEventType::StaleTransitionDiscarded => "stale_transition_discarded",
        }
    }
}

/// Read a stored event type.
pub fn parse_event_type(value: &str) -> (result: Result<ModuleEventType, RepositoryError>)
    ensures
        match event_type_from_text(value@) {
            Some(event_type) => result == Ok::<ModuleEventType, RepositoryError>(event_type),
            None => result matches Err(RepositoryError::Consistency(text)) && text@
                == "unknown runtime event type: "@ + value@,
        },
{
    if text_equals(value, "desired_state_changed") {
        Ok(ModuleEventType::DesiredStateChanged)
    } else if text_equals(value, "transition_started") {
        Ok(ModuleEventType::TransitionStarted)
    } else if text_equals(value, "transition_completed") {
        Ok(ModuleEventType::TransitionCompleted)
    } else if text_equals(value, "transition_failed") {
        Ok(ModuleEventType::TransitionFailed)
    } else if text_equals(value, "drain_started") {
        Ok(ModuleEventType::DrainStarted)
    } else if text_equals(value, "drain_completed") {
        Ok(ModuleEventType::DrainCompleted)
    } else if text_equals(value, "stale_transition_discarded") {
        Ok(ModuleEventType::StaleTransitionDiscarded)
    } else {
        Err(unknown_value("unknown runtime event type: ", value))
    }
}

/// The state an event records before or after the change.
#[derive(Clone, Copy, Debug, PartialEq, Eq, Structural)]
pub enum ModuleEventState {
    Desired(DesiredMode),
    Actual(ModuleState),
}

/// Read a stored event state: desired-state events record desired modes,
/// every other event records actual states.
pub fn parse_event_state(event_type: ModuleEventType, value: &str) -> (result: Result<ModuleEventState, RepositoryError>)
    ensures
        event_type == ModuleEventType::DesiredStateChanged ==> match desired_mode_from_text(value@) {
            Some(mode) => result == Ok::<ModuleEventState, RepositoryError>(ModuleEventState::Desired(mode)),
            None => result matches Err(RepositoryError::Consistency(text)) && text@
                == "unknown runtime desired mode: "@ + value@,
        },
        event_type != ModuleEventType::DesiredStateChanged ==> match module_state_from_text(value@) {
            Some(state) => result == Ok::<ModuleEventState, RepositoryError>(ModuleEventState::Actual(state)),
            None => result matches Err(RepositoryError::Consistency(text)) && text@
                == "unknown runtime actual state: "@ + value@,
        },
{
    if event_type == ModuleEventType::DesiredStateChanged {
        match parse_desired_mode(value) {
            Ok(mode) => Ok(ModuleEventState::Desired(mode)),
            Err(error) => Err(error),
        }
    } else {
        match parse_actual_state(value) {
            Ok(state) => Ok(ModuleEventState::Actual(state)),
            Err(error) => Err(error),
        }
    }
}

/// Every stored name of a mode, state or event type reads back as itself.
pub proof fn lemma_runtime_names_round_trip(mode: DesiredMode, state: ModuleState, event_type: ModuleEventType)
    ensures
        desired_mode_from_text(desired_mode_text(mode)) == Some(mode),
        module_state_from_text(module_state_text(state)) == Some(state),
        event_type_from_text(event_type_text(event_type)) == Some(event_type),
{
    reveal_strlit("inherit");
    reveal_strlit("enabled");
    reveal_strlit("disabled");
    reveal_strlit("starting");
    reveal_strlit("draining");
    reveal_strlit("failed");
    reveal_strlit("desired_state_changed");
    reveal_strlit("transition_started");
    reveal_strlit("transition_completed");
    reveal_strlit("transition_failed");
    reveal_strlit("drain_started");
    reveal_strlit("drain_completed");
    reveal_strlit("stale_transition_discarded");
    assert("inherit"@.len() != "enabled"@.len() || "inherit"@[0] != "enabled"@[0]);
    assert("enabled"@[0] != "disabled"@[0] && "disabled"@[0] != "draining"@[1]);
    assert("starting"@[0] != "disabled"@[0] && "starting"@[0] != "draining"@[0]);
    assert("desired_state_changed"@.len() == 21 && "transition_started"@.len() == 18
        && "transition_completed"@.len() == 20 && "transition_failed"@.len() == 17
        && "drain_started"@.len() == 13 && "drain_completed"@.len() == 15
        && "stale_transition_discarded"@.len() == 26);
}

/// Read a stored revision: revisions are never negative.
pub fn parse_revision(value: i64) -> (result: Result<u64, RepositoryError>)
    ensures
        value >= 0 ==> result == Ok::<u64, RepositoryError>(value as u64),
        value < 0 ==> (result matches Err(RepositoryError::Consistency(text)) && text@
            == "negative runtime revision"@),
{
    if value < 0 {
        Err(consistency("negative runtime revision"))
    } else {
        Ok(value as u64)
    }
}

/// Store a revision: it must fit the signed column.
pub fn storage_revision(value: u64) -> (result: Result<i64, RepositoryError>)
    ensures
        value <= i64::MAX ==> result == Ok::<i64, RepositoryError>(value as i64),
        value > i64::MAX ==> (result matches Err(RepositoryError::Consistency(text)) && text@
            == "runtime revision exceeds the stored range"@),
{
    if value > 9_223_372_036_854_775_807u64 {
        Err(consistency("runtime revision exceeds the stored range"))
    } else {
        Ok(value as i64)
    }
}

/// Storing a revision and reading it back gives the same revision.
pub proof fn lemma_revision_storage_round_trip(value: u64)
    requires
        value <= i64::MAX,
    ensures
        (value as i64) >= 0,
        ((value as i64) as u64) == value,
{
}

/// The revision a desired-state change must carry: 1 for the first
/// change, else one past the expected revision.
pub fn next_desired_revision(expected_revision: Option<u64>) -> (result: Result<u64, RepositoryError>)
    ensures
        expected_revision is None ==> result == Ok::<u64, RepositoryError>(1),
        expected_revision is Some && expected_revision->0 < u64::MAX ==> result == Ok::<u64, RepositoryError>(
            (expected_revision->0 + 1) as u64,
        ),
        expected_revision == Some(u64::MAX) ==> (result matches Err(RepositoryError::Consistency(text))
            && text@ == "desired revision space is exhausted"@),
{
    match expected_revision {
        None => Ok(1),
        Some(revision) => if revision == u64::MAX {
            Err(consistency("desired revision space is exhausted"))
        } else {
            Ok(revision + 1)
        },
    }
}

/// Event pages start at a non-negative offset and hold 1 to 100 events.
pub fn validate_event_page(offset: i64, limit: i64) -> (result: Result<(), RepositoryError>)
    ensures
        offset >= 0 && 1 <= limit <= 100 ==> result is Ok,
        !(offset >= 0 && 1 <= limit <= 100) ==> (result matches Err(RepositoryError::Consistency(text))
            && text@ == "runtime event pagination is out of bounds"@),
{
    if offset < 0 || limit < 1 || limit > 100 {
        Err(consistency("runtime event pagination is out of bounds"))
    } else {
        Ok(())
    }
}


/// A module's desired state.  `actor_id` is the text of the acting
/// operator's UUID; times are microseconds since the epoch.
#[derive(Clone, Debug)]
pub struct DesiredStateRecord {
    pub module_id: ModuleId,
    pub mode: DesiredMode,
    pub revision: u64,
    pub actor_id: Option<String>,
    pub reason: Option<String>,
    pub updated_at: i64,
}

/// A compare-and-set request on a module's desired state.
#[derive(Clone, Debug)]
pub struct DesiredStateChange {
    pub expected_revision: Option<u64>,
    pub next: DesiredStateRecord,
}

/// Another module's desired revision that must still hold for a guarded
/// change to apply.
#[derive(Clone, Copy, Debug, PartialEq, Eq, Structural)]
pub struct DesiredRevisionGuard {
    pub module_id: ModuleId,
    pub expected_revision: Option<u64>,
}

/// The result of a compare-and-set.
#[derive(Clone, Debug)]
pub enum CasOutcome<T> {
    Applied(T),
    Stale { current: Option<T> },
}

/// The modules a desired-state change locks, in lock order: the target and
/// every guarded module, each once, by ascending catalog position.
pub fn desired_lock_modules(guards: &[DesiredRevisionGuard], target: ModuleId) -> (modules: Vec<ModuleId>)
    ensures
        forall|i: int, j: int| 0 <= i < j < modules@.len() ==> module_rank(modules@[i]) < module_rank(
            modules@[j],
        ),
        forall|m: ModuleId| #[trigger] modules@.contains(m) <==> (m == target || exists|i: int|
            0 <= i < guards@.len() && guards@[i].module_id == m),
{
    let mut modules: Vec<ModuleId> = Vec::new();
    let mut rank: u8 = 0;
    while rank < 16
        invariant
            rank <= 16,
            forall|i: int| 0 <= i < modules@.len() ==> module_rank(#[trigger] modules@[i]) < rank,
            forall|i: int, j: int| 0 <= i < j < modules@.len() ==> module_rank(modules@[i]) < module_rank(
                modules@[j],
            ),
            forall|m: ModuleId| #[trigger] modules@.contains(m) <==> (module_rank(m) < rank && (m == target
                || exists|i: int| 0 <= i < guards@.len() && guards@[i].module_id == m)),
        decreases 16 - rank,
    {
        let module = match module_at_rank(rank) {
            Some(m) => m,
            None => {
                rank = rank + 1;
                continue;
            },
        };
        let mut wanted = module == target;
        let mut g: usize = 0;
        while g < guards.len()
            invariant
                g <= guards@.len(),
                wanted == (module == target || exists|i: int| 0 <= i < g && guards@[i].module_id == module),
            decreases guards@.len() - g,
        {
            if guards[g].module_id == module {
                wanted = true;
            }
            g = g + 1;
        }
        let ghost before = modules@;
        if wanted {
            modules.push(module);
        }
        proof {
            assert forall|m: ModuleId| #[trigger] modules@.contains(m) <==> (before.contains(m) || (wanted
                && m == module)) by {
                if wanted {
                    if before.contains(m) {
                        let k = choose|k: int| 0 <= k < before.len() && before[k] == m;
                        assert(modules@[k] == m);
                    }
                    if m == module {
                        assert(modules@[before.len() as int] == m);
                    }
                    if modules@.contains(m) {
                        let k = choose|k: int| 0 <= k < modules@.len() && modules@[k] == m;
                        if k < before.len() {
                            assert(before[k] == m);
                        }
                    }
                }
            }
            assert forall|m: ModuleId| #[trigger] modules@.contains(m) <==> (module_rank(m) < rank + 1 && (m
                == target || exists|i: int| 0 <= i < guards@.len() && guards@[i].module_id == m)) by {
                if module_rank(m) == rank {
                    lemma_rank_injective(m, module);
                }
            }
        }
        rank = rank + 1;
    }
    modules
}

/// The first guard (by position) whose stored revision differs from the
/// expected one: a missing row must be expected missing, a stored
/// revision must be non-negative and equal to the expected one.
pub open spec fn guard_holds(guard: DesiredRevisionGuard, stored: Option<i64>) -> bool {
    match stored {
        None => guard.expected_revision is None,
        Some(value) => value >= 0 && guard.expected_revision == Some(value as u64),
    }
}

/// Index `i` is the first guard that does not hold.
pub open spec fn first_broken_guard(guards: Seq<DesiredRevisionGuard>, stored: Seq<Option<i64>>, i: int) -> bool {
    &&& 0 <= i < guards.len()
    &&& !guard_holds(guards[i], stored[i])
    &&& forall|j: int| 0 <= j < i ==> guard_holds(guards[j], #[trigger] stored[j])
}

/// What a desired-state compare-and-set does once its locks are held.
#[derive(Clone, Copy, Debug, PartialEq, Eq, Structural)]
pub enum DesiredCasStep {
    /// Report the current record as stale.
    Stale,
    /// The mode is unchanged: record a no-op event and report the current
    /// record as applied.
    Noop,
    /// Write the next record and report it as applied.
    Update,
}

/// The step a desired-state compare-and-set takes, or `None` when it fails
/// with an error.
pub open spec fn desired_cas_verdict(
    change: DesiredStateChange,
    expected_next: u64,
    current: Option<DesiredStateRecord>,
    guards: Seq<DesiredRevisionGuard>,
    stored: Seq<Option<i64>>,
) -> Option<DesiredCasStep> {
    match current {
        None => None,
        Some(record) => if Some(record.revision) != change.expected_revision {
            Some(DesiredCasStep::Stale)
        } else if exists|i: int| first_broken_guard(guards, stored, i) {
            let i = choose|i: int| first_broken_guard(guards, stored, i);
            if stored[i] matches Some(v) && v < 0 {
                None
            } else {
                Some(DesiredCasStep::Stale)
            }
        } else if record.mode == change.next.mode {
            Some(DesiredCasStep::Noop)
        } else if change.next.revision != expected_next {
            None
        } else {
            Some(DesiredCasStep::Update)
        },
    }
}

/// Decide a desired-state compare-and-set over the locked current record
/// (`None`: the module has no desired row) and the stored revisions of the
/// guarded modules, read in guard order.  `expected_next` is
/// [`next_desired_revision`] of the change's expected revision.
pub fn decide_desired_cas(
    change: &DesiredStateChange,
    expected_next: u64,
    current: Option<&DesiredStateRecord>,
    guards: &[DesiredRevisionGuard],
    stored: &[Option<i64>],
) -> (result: Result<DesiredCasStep, RepositoryError>)
    requires
        guards@.len() == stored@.len(),
    ensures
        match desired_cas_verdict(
            *change,
            expected_next,
            match current {
                Some(record) => Some(*record),
                None => None,
            },
            guards@,
            stored@,
        ) {
            Some(step) => result == Ok::<DesiredCasStep, RepositoryError>(step),
            None => result is Err,
        },
        match current {
            None => result matches Err(RepositoryError::Consistency(text)) && text@
                == "runtime desired state is missing"@,
            Some(record) => if Some(record.revision) != change.expected_revision {
                result == Ok::<DesiredCasStep, RepositoryError>(DesiredCasStep::Stale)
            } else if exists|i: int| first_broken_guard(guards@, stored@, i) {
                forall|i: int| #[trigger] first_broken_guard(guards@, stored@, i) ==> if stored@[i] matches Some(
                    v,
                ) && v < 0 {
                    result matches Err(RepositoryError::Consistency(text)) && text@
                        == "negative runtime revision"@
                } else {
                    result == Ok::<DesiredCasStep, RepositoryError>(DesiredCasStep::Stale)
                }
            } else if record.mode == change.next.mode {
                result == Ok::<DesiredCasStep, RepositoryError>(DesiredCasStep::Noop)
            } else if change.next.revision != expected_next {
                result matches Err(RepositoryError::Consistency(text)) && text@
                    == "desired revision must advance to "@ + decimal_of(expected_next as nat)
            } else {
                result == Ok::<DesiredCasStep, RepositoryError>(DesiredCasStep::Update)
            },
        },
{
    let Some(record) = current else {
        return Err(consistency("runtime desired state is missing"));
    };
    if Some(record.revision) != change.expected_revision {
        return Ok(DesiredCasStep::Stale);
    }
    let mut i: usize = 0;
    while i < guards.len()
        invariant
            i <= guards@.len(),
            guards@.len() == stored@.len(),
            current == Some(record),
            Some(record.revision) == change.expected_revision,
            forall|j: int| 0 <= j < i ==> guard_holds(guards@[j], #[trigger] stored@[j]),
        decreases guards@.len() - i,
    {
        let guard = guards[i];
        let held = match stored[i] {
            None => guard.expected_revision.is_none(),
            Some(value) => {
                if value < 0 {
                    assert(first_broken_guard(guards@, stored@, i as int));
                    return Err(consistency("negative runtime revision"));
                }
                guard.expected_revision == Some(value as u64)
            },
        };
        if !held {
            assert(first_broken_guard(guards@, stored@, i as int));
            return Ok(DesiredCasStep::Stale);
        }
        i = i + 1;
    }
    assert forall|k: int| !first_broken_guard(guards@, stored@, k) by {
        if 0 <= k < guards@.len() {
            assert(guard_holds(guards@[k], stored@[k]));
        }
    }
    if record.mode == change.next.mode {
        return Ok(DesiredCasStep::Noop);
    }
    if change.next.revision != expected_next {
        return Err(RepositoryError::Consistency(concat_text(
            "desired revision must advance to ",
            decimal_text(expected_next).as_str(),
        )));
    }
    Ok(DesiredCasStep::Update)
}

/// A desired state is only overwritten from the expected revision, with
/// every guard holding, to a different mode at exactly the next revision;
/// an unchanged mode never writes.
/// The verdict of a desired-state compare-and-set in terms of what was
/// read: a missing desired row is an error; a record at another revision
/// than expected is stale; at the expected revision with every guarded
/// module at its expected revision, an unchanged mode writes nothing and a
/// changed mode is written at the next revision.
pub proof fn lemma_desired_cas_verdicts(
    change: DesiredStateChange,
    expected_next: u64,
    current: Option<DesiredStateRecord>,
    guards: Seq<DesiredRevisionGuard>,
    stored: Seq<Option<i64>>,
)
    requires
        guards.len() == stored.len(),
    ensures
        current is None ==> desired_cas_verdict(change, expected_next, current, guards, stored) is None,
        current matches Some(record) && Some(record.revision) != change.expected_revision ==> desired_cas_verdict(
            change,
            expected_next,
            current,
            guards,
            stored,
        ) == Some(DesiredCasStep::Stale),
        current matches Some(record) && Some(record.revision) == change.expected_revision && (forall|i: int|
            0 <= i < guards.len() ==> match #[trigger] stored[i] {
                None => guards[i].expected_revision is None,
                Some(v) => v >= 0 && guards[i].expected_revision == Some(v as u64),
            }) ==> desired_cas_verdict(change, expected_next, current, guards, stored) == if current->0.mode
            == change.next.mode {
            Some(DesiredCasStep::Noop)
        } else if change.next.revision == expected_next {
            Some(DesiredCasStep::Update)
        } else {
            None
        },
{
    if current matches Some(record) && Some(record.revision) == change.expected_revision && (forall|i: int|
        0 <= i < guards.len() ==> match #[trigger] stored[i] {
            None => guards[i].expected_revision is None,
            Some(v) => v >= 0 && guards[i].expected_revision == Some(v as u64),
        }) {
        assert forall|i: int| !first_broken_guard(guards, stored, i) by {
            if 0 <= i < guards.len() {
                assert(guard_holds(guards[i], stored[i]));
            }
        }
    }
}

pub proof fn lemma_desired_cas_update_advances(
    change: DesiredStateChange,
    record: DesiredStateRecord,
    guards: Seq<DesiredRevisionGuard>,
    stored: Seq<Option<i64>>,
)
    requires
        guards.len() == stored.len(),
        change.expected_revision is None || change.expected_revision->0 < u64::MAX,
        desired_cas_verdict(
            change,
            match change.expected_revision {
                None => 1,
                Some(r) => (r + 1) as u64,
            },
            Some(record),
            guards,
            stored,
        ) == Some(DesiredCasStep::Update),
    ensures
        change.expected_revision == Some(record.revision),
        forall|i: int| 0 <= i < guards.len() ==> guard_holds(guards[i], #[trigger] stored[i]),
        record.mode != change.next.mode,
        change.next.revision == record.revision + 1,
{
    assert forall|i: int| 0 <= i < guards.len() implies guard_holds(guards[i], #[trigger] stored[i]) by {
        if !guard_holds(guards[i], stored[i]) {
            lemma_first_broken_exists(guards, stored, i);
        }
    }
}

/// When some guard is broken, a first broken guard exists.
proof fn lemma_first_broken_exists(guards: Seq<DesiredRevisionGuard>, stored: Seq<Option<i64>>, i: int)
    requires
        0 <= i < guards.len(),
        !guard_holds(guards[i], stored[i]),
    ensures
        exists|k: int| first_broken_guard(guards, stored, k),
    decreases i,
{
    if forall|j: int| 0 <= j < i ==> guard_holds(guards[j], #[trigger] stored[j]) {
        assert(first_broken_guard(guards, stored, i));
    } else {
        let j = choose|j: int| 0 <= j < i && !guard_holds(guards[j], #[trigger] stored[j]);
        lemma_first_broken_exists(guards, stored, j);
    }
}

/// Decimal digits of a natural number, most significant first.
pub open spec fn decimal_of(n: nat) -> Seq<char>
    decreases n,
{
    if n < 10 {
        seq![digit_char(n)]
    } else {
        decimal_of(n / 10) + seq![digit_char(n % 10)]
    }
}

pub open spec fn digit_char(d: nat) -> char {
    (48 + d) as char
}

/// The decimal text of a number, as `{}` formats it.
pub fn decimal_text(n: u64) -> (text: String)
    ensures
        text@ == decimal_of(n as nat),
{
    let mut digits: Vec<char> = Vec::new();
    let mut rest: u64 = n;
    // Collect digits least significant first.
    loop
        invariant_except_break
            decimal_of(n as nat) == decimal_of(rest as nat) + digits@.reverse(),
        ensures
            decimal_of(n as nat) == digits@.reverse(),
        decreases rest,
    {
        let c = digit_of(rest % 10);
        let ghost previous = digits@;
        digits.push(c);
        assert(digits@.reverse() =~= seq![c] + previous.reverse());
        if rest < 10 {
            assert(decimal_of(rest as nat) == seq![c]);
            assert(decimal_of(n as nat) =~= digits@.reverse());
            break;
        }
        assert(decimal_of(rest as nat) == decimal_of((rest / 10) as nat) + seq![c]);
        assert(decimal_of(n as nat) =~= decimal_of((rest / 10) as nat) + digits@.reverse());
        rest = rest / 10;
    }
    let mut out: Vec<char> = Vec::new();
    let mut i: usize = digits.len();
    while i > 0
        invariant
            i <= digits@.len(),
            out@ == digits@.subrange(i as int, digits@.len() as int).reverse(),
        decreases i,
    {
        i = i - 1;
        out.push(digits[i]);
        assert(out@ =~= digits@.subrange(i as int, digits@.len() as int).reverse());
    }
    assert(out@ =~= digits@.reverse());
    string_from_chars(out.as_slice())
}

fn digit_of(d: u64) -> (c: char)
    requires
        d < 10,
    ensures
        c == digit_char(d as nat),
{
    (48u8 + d as u8) as char
}


/// A module's actual state on one instance.  Times are microseconds since
/// the epoch.
#[derive(Clone, Debug)]
pub struct InstanceStateRecord {
    pub instance_id: String,
    pub module_id: ModuleId,
    pub state: ModuleState,
    pub transition_revision: u64,
    pub applied_revision: Option<u64>,
    pub drain_deadline: Option<i64>,
    pub error_code: Option<String>,
    pub updated_at: i64,
}

/// A compare-and-set request on an instance's actual state.
#[derive(Clone, Debug)]
pub struct InstanceStateChange {
    pub expected_revision: Option<u64>,
    pub next: InstanceStateRecord,
}

/// One entry of the module state event log.
#[derive(Clone, Debug)]
pub struct ModuleEventRecord {
    pub event_id: u128,
    pub module_id: ModuleId,
    pub event_type: ModuleEventType,
    pub revision: u64,
    pub instance_id: Option<String>,
    pub actor_id: Option<String>,
    pub reason: Option<String>,
    pub before: Option<ModuleEventState>,
    pub after: Option<ModuleEventState>,
    pub outcome_code: Option<String>,
    pub occurred_at: i64,
}

/// An actual-state change with the event to log when it applies and the
/// event to log when it is discarded as stale.
#[derive(Clone, Debug)]
pub struct InstanceStateMutation {
    pub change: InstanceStateChange,
    pub applied_event: ModuleEventRecord,
    pub stale_event: ModuleEventRecord,
}

pub open spec fn is_transition_or_drain(event_type: ModuleEventType) -> bool {
    ||| event_type == ModuleEventType::TransitionStarted
    ||| event_type == ModuleEventType::TransitionCompleted
    ||| event_type == ModuleEventType::TransitionFailed
    ||| event_type == ModuleEventType::DrainStarted
    ||| event_type == ModuleEventType::DrainCompleted
}

/// An event describes the mutation of `next`: same module, same instance,
/// same transition revision.
pub open spec fn event_matches(event: ModuleEventRecord, next: InstanceStateRecord) -> bool {
    &&& event.module_id == next.module_id
    &&& event.instance_id matches Some(id) && id@ == next.instance_id@
    &&& event.revision == next.transition_revision
}

/// Why an actual-state mutation is malformed, checked in this order; `None`
/// when it is well-formed.
pub open spec fn instance_mutation_fault(required_desired_revision: u64, mutation: InstanceStateMutation) -> Option<Seq<char>> {
    let next = mutation.change.next;
    if next.transition_revision != required_desired_revision {
        Some("instance transition must be bound to the required desired revision"@)
    } else if !is_transition_or_drain(mutation.applied_event.event_type) {
        Some("actual-state mutation requires a transition or drain event"@)
    } else if mutation.stale_event.event_type != ModuleEventType::StaleTransitionDiscarded {
        Some("actual-state mutation requires a stale-transition event"@)
    } else if !event_matches(mutation.applied_event, next) || !event_matches(mutation.stale_event, next) {
        Some("actual-state event does not match its revision-bound mutation"@)
    } else if mutation.applied_event.after != Some(ModuleEventState::Actual(next.state)) {
        Some("applied actual-state event must describe the committed state"@)
    } else {
        None
    }
}

fn event_describes(event: &ModuleEventRecord, next: &InstanceStateRecord) -> (matches: bool)
    ensures
        matches == event_matches(*event, *next),
{
    let same_instance = match &event.instance_id {
        Some(id) => text_equals(id.as_str(), next.instance_id.as_str()),
        None => false,
    };
    event.module_id == next.module_id && same_instance && event.revision == next.transition_revision
}

/// Check an actual-state mutation before touching the store: it must be
/// bound to the required desired revision, carry a transition or drain
/// event and a stale-transition event that both describe it, and the
/// applied event must record the committed state.
pub fn validate_instance_mutation(required_desired_revision: u64, mutation: &InstanceStateMutation) -> (result: Result<(), RepositoryError>)
    ensures
        match instance_mutation_fault(required_desired_revision, *mutation) {
            None => result is Ok,
            Some(message) => result matches Err(RepositoryError::Consistency(text)) && text@ == message,
        },
{
    let next = &mutation.change.next;
    if next.transition_revision != required_desired_revision {
        return Err(consistency("instance transition must be bound to the required desired revision"));
    }
    let applied = &mutation.applied_event;
    let stale = &mutation.stale_event;
    match applied.event_type {
        ModuleEventType::TransitionStarted | ModuleEventType::TransitionCompleted
        | ModuleEventType::TransitionFailed | ModuleEventType::DrainStarted
        | ModuleEventType::DrainCompleted => {},
        _ => {
            return Err(consistency("actual-state mutation requires a transition or drain event"));
        },
    }
    if stale.event_type != ModuleEventType::StaleTransitionDiscarded {
        return Err(consistency("actual-state mutation requires a stale-transition event"));
    }
    if !event_describes(applied, next) || !event_describes(stale, next) {
        return Err(consistency("actual-state event does not match its revision-bound mutation"));
    }
    if applied.after != Some(ModuleEventState::Actual(next.state)) {
        return Err(consistency("applied actual-state event must describe the committed state"));
    }
    Ok(())
}

/// Whether the module's durable desired revision (`None`: no desired row)
/// is still the one the transition was computed for.
pub fn instance_desired_revision_current(required_desired_revision: u64, durable: Option<i64>) -> (result: Result<bool, RepositoryError>)
    ensures
        required_desired_revision <= i64::MAX ==> result == Ok::<bool, RepositoryError>(
            durable == Some(required_desired_revision as i64),
        ),
        required_desired_revision > i64::MAX ==> (result matches Err(RepositoryError::Consistency(text)) && text@
            == "runtime revision exceeds the stored range"@),
{
    let required = storage_revision(required_desired_revision)?;
    Ok(durable == Some(required))
}

/// The stored columns of an applied instance transition.
#[derive(Clone, Copy, Debug, PartialEq, Eq, Structural)]
pub struct InstanceRevisionColumns {
    pub transition_revision: i64,
    pub applied_revision: Option<i64>,
}

/// The write an instance compare-and-set makes after its freshness checks.
#[derive(Clone, Copy, Debug, PartialEq, Eq, Structural)]
pub enum InstanceWrite {
    /// The current transition revision is not the expected one: log the
    /// stale event and report the current record.
    Stale,
    /// Update the row whose transition revision is still `expected`.
    Update { expected: i64, columns: InstanceRevisionColumns },
    /// Insert the first row of the instance and module.
    Insert { columns: InstanceRevisionColumns },
}

/// The write of an instance compare-and-set, or `None` when it fails: the
/// stored transition revision must be the expected one, the transition may
/// not move backwards, and every revision must fit the stored range.
pub open spec fn instance_write_plan(change: InstanceStateChange, current_revision: Option<u64>) -> Option<InstanceWrite> {
    let next = change.next;
    if current_revision != change.expected_revision {
        Some(InstanceWrite::Stale)
    } else if change.expected_revision matches Some(expected) && next.transition_revision < expected {
        None
    } else if next.transition_revision > i64::MAX || (next.applied_revision matches Some(a) && a > i64::MAX) {
        None
    } else {
        let columns = InstanceRevisionColumns {
            transition_revision: next.transition_revision as i64,
            applied_revision: match next.applied_revision {
                Some(a) => Some(a as i64),
                None => None,
            },
        };
        match change.expected_revision {
            Some(expected) => if expected > i64::MAX {
                None
            } else {
                Some(InstanceWrite::Update { expected: expected as i64, columns })
            },
            None => Some(InstanceWrite::Insert { columns }),
        }
    }
}

/// Decide the write of an instance compare-and-set against the locked
/// current record of the instance and module, if any.
pub fn decide_instance_write(change: &InstanceStateChange, current: Option<&InstanceStateRecord>) -> (result: Result<InstanceWrite, RepositoryError>)
    ensures
        match instance_write_plan(
            *change,
            match current {
                Some(record) => Some(record.transition_revision),
                None => None,
            },
        ) {
            Some(write) => result == Ok::<InstanceWrite, RepositoryError>(write),
            None => result matches Err(RepositoryError::Consistency(_)),
        },
        match current {
            Some(record) => Some(record.transition_revision),
            None => None,
        } == change.expected_revision && change.expected_revision is Some
            && change.next.transition_revision < change.expected_revision->0 ==> (result matches Err(RepositoryError::Consistency(text)) && text@
            == "instance transition revision cannot move backwards"@),
{
    let current_revision = match current {
        Some(record) => Some(record.transition_revision),
        None => None,
    };
    if current_revision != change.expected_revision {
        return Ok(InstanceWrite::Stale);
    }
    let next = &change.next;
    if let Some(expected) = change.expected_revision {
        if next.transition_revision < expected {
            return Err(consistency("instance transition revision cannot move backwards"));
        }
    }
    let transition_revision = storage_revision(next.transition_revision)?;
    let applied_revision = match next.applied_revision {
        Some(applied) => Some(storage_revision(applied)?),
        None => None,
    };
    let columns = InstanceRevisionColumns { transition_revision, applied_revision };
    match change.expected_revision {
        Some(expected) => {
            let expected_column = storage_revision(expected)?;
            Ok(InstanceWrite::Update { expected: expected_column, columns })
        },
        None => Ok(InstanceWrite::Insert { columns }),
    }
}

/// An instance transition is written only from the expected transition
/// revision (a first row only when none was expected), and never moves the
/// transition revision backwards.
pub proof fn lemma_instance_write_is_compare_and_set(change: InstanceStateChange, current_revision: Option<u64>)
    requires
        instance_write_plan(change, current_revision) matches Some(write) && write !is Stale,
    ensures
        current_revision == change.expected_revision,
        change.expected_revision matches Some(expected) ==> expected <= change.next.transition_revision,
        instance_write_plan(change, current_revision) matches Some(InstanceWrite::Insert { .. })
            ==> current_revision is None,
{
}

/// The columns an instance write stores are the change's own revisions, as
/// numbers: the transition revision of the next record, and its applied
/// revision exactly when it has one.  An update is guarded by the expected
/// revision; a current revision other than the expected one only ever
/// reports the write as stale.
pub proof fn lemma_instance_write_stores_the_change(change: InstanceStateChange, current_revision: Option<u64>)
    ensures
        current_revision != change.expected_revision ==> instance_write_plan(change, current_revision) == Some(
            InstanceWrite::Stale,
        ),
        match instance_write_plan(change, current_revision) {
            Some(InstanceWrite::Update { expected, columns }) => {
                &&& change.expected_revision matches Some(e) && e == expected
                &&& columns.transition_revision == change.next.transition_revision
                &&& columns.applied_revision is Some == change.next.applied_revision is Some
                &&& (columns.applied_revision matches Some(c) ==> c == change.next.applied_revision->0)
            },
            Some(InstanceWrite::Insert { columns }) => {
                &&& change.expected_revision is None
                &&& columns.transition_revision == change.next.transition_revision
                &&& columns.applied_revision is Some == change.next.applied_revision is Some
                &&& (columns.applied_revision matches Some(c) ==> c == change.next.applied_revision->0)
            },
            _ => true,
        },
{
}

/// The event that records a desired-state change (or no-op) of `next` from
/// the mode `before`, at `revision`.
pub fn desired_event(
    next: &DesiredStateRecord,
    before: DesiredMode,
    revision: u64,
    outcome_code: Option<String>,
    event_id: u128,
) -> (event: ModuleEventRecord)
    ensures
        event.event_id == event_id,
        event.module_id == next.module_id,
        event.event_type == ModuleEventType::DesiredStateChanged,
        event.revision == revision,
        event.instance_id is None,
        event.actor_id == next.actor_id,
        event.reason == next.reason,
        event.before == Some(ModuleEventState::Desired(before)),
        event.after == Some(ModuleEventState::Desired(next.mode)),
        event.outcome_code == outcome_code,
        event.occurred_at == next.updated_at,
{
    ModuleEventRecord {
        event_id,
        module_id: next.module_id,
        event_type: ModuleEventType::DesiredStateChanged,
        revision,
        instance_id: None,
        actor_id: next.actor_id.clone(),
        reason: next.reason.clone(),
        before: Some(ModuleEventState::Desired(before)),
        after: Some(ModuleEventState::Desired(next.mode)),
        outcome_code,
        occurred_at: next.updated_at,
    }
}


/// Read an optional UUID field of a change (`field` names it in the
/// diagnostic).
pub fn parse_optional_uuid(value: Option<&str>, field: &str) -> (result: Result<Option<u128>, RepositoryError>)
    ensures
        match value {
            None => result == Ok::<Option<u128>, RepositoryError>(None),
            Some(text) => match uuid_parse_of(text@) {
                Some(id) => result == Ok::<Option<u128>, RepositoryError>(Some(id)),
                None => result matches Err(RepositoryError::Consistency(message)) && message@
                    == "invalid runtime "@ + field@ + " id: "@ + uuid_parse_error_of(text@),
            },
        },
{
    match value {
        None => Ok(None),
        Some(text) => match parse_uuid_text(text) {
            Ok(id) => Ok(Some(id)),
            Err(error) => {
                let head = concat_text("invalid runtime ", field);
                let head = concat_text(head.as_str(), " id: ");
                Err(RepositoryError::Consistency(concat_text(head.as_str(), error.as_str())))
            },
        },
    }
}

/// The columns an applied desired-state update writes besides the mode:
/// the actor's UUID and the revision in its stored form.
pub fn desired_update_columns(next: &DesiredStateRecord) -> (result: Result<(Option<u128>, i64), RepositoryError>)
    ensures
        match next.actor_id {
            Some(text) => uuid_parse_of(text@) is None ==> (result matches Err(RepositoryError::Consistency(message))
                && message@ == "invalid runtime "@ + "actor"@ + " id: "@ + uuid_parse_error_of(text@)),
            None => true,
        },
        result matches Ok((actor, revision)) ==> revision == next.revision && match next.actor_id {
            Some(text) => actor == uuid_parse_of(text@),
            None => actor is None,
        },
        (next.actor_id is None || uuid_parse_of(next.actor_id->0@) is Some) ==> (result is Ok <==> next.revision
            <= i64::MAX),
{
    let actor = match &next.actor_id {
        Some(text) => parse_optional_uuid(Some(text.as_str()), "actor")?,
        None => None,
    };
    let revision = storage_revision(next.revision)?;
    Ok((actor, revision))
}

/// Lock key of a module's desired state in a tenant.
pub fn desired_lock_key(tenant_id: u128, module: ModuleId) -> (key: String)
    ensures
        key@ == uuid_text_of(tenant_id) + ":"@ + module_id_text(module),
{
    let tenant = uuid_text(tenant_id);
    let head = concat_text(tenant.as_str(), ":");
    concat_text(head.as_str(), module.as_str())
}

/// Lock key of a module's actual state on an instance.
pub fn instance_lock_key(instance_id: &str, module: ModuleId) -> (key: String)
    ensures
        key@ == instance_id@ + ":"@ + module_id_text(module),
{
    let head = concat_text(instance_id, ":");
    concat_text(head.as_str(), module.as_str())
}

/// A stored desired-state row.
#[derive(Clone, Debug)]
pub struct DesiredStateRow {
    pub module_id: String,
    pub desired_mode: String,
    pub revision: i64,
    pub actor_id: Option<u128>,
    pub reason: Option<String>,
    pub updated_at: i64,
}

pub open spec fn optional_uuid_text(id: Option<u128>, text: Option<String>) -> bool {
    match (id, text) {
        (None, None) => true,
        (Some(i), Some(t)) => t@ == uuid_text_of(i),
        _ => false,
    }
}

fn optional_uuid_string(id: Option<u128>) -> (text: Option<String>)
    ensures
        optional_uuid_text(id, text),
{
    match id {
        Some(value) => Some(uuid_text(value)),
        None => None,
    }
}

/// Why a desired-state row is unreadable: the first invalid field, in
/// reading order; `None` when it is readable.
pub open spec fn desired_row_failure(row: DesiredStateRow) -> Option<Seq<char>> {
    if module_id_from_text(row.module_id@) is None {
        Some("unknown runtime module id: "@ + row.module_id@)
    } else if desired_mode_from_text(row.desired_mode@) is None {
        Some("unknown runtime desired mode: "@ + row.desired_mode@)
    } else if row.revision < 0 {
        Some("negative runtime revision"@)
    } else {
        None
    }
}

/// Read a desired-state row: module, mode and revision must be valid
/// (checked in that order).
pub fn desired_from_row(row: DesiredStateRow) -> (result: Result<DesiredStateRecord, RepositoryError>)
    ensures
        desired_row_failure(row) matches Some(message) ==> (result matches Err(RepositoryError::Consistency(text))
            && text@ == message),
        result is Ok <==> (module_id_from_text(row.module_id@) is Some && desired_mode_from_text(
            row.desired_mode@,
        ) is Some && row.revision >= 0),
        result matches Err(error) ==> error is Consistency,
        result matches Ok(record) ==> {
            &&& Some(record.module_id) == module_id_from_text(row.module_id@)
            &&& Some(record.mode) == desired_mode_from_text(row.desired_mode@)
            &&& record.revision == row.revision
            &&& optional_uuid_text(row.actor_id, record.actor_id)
            &&& record.reason == row.reason
            &&& record.updated_at == row.updated_at
        },
{
    let module_id = parse_module_id(row.module_id.as_str())?;
    let mode = parse_desired_mode(row.desired_mode.as_str())?;
    let revision = parse_revision(row.revision)?;
    Ok(DesiredStateRecord {
        module_id,
        mode,
        revision,
        actor_id: optional_uuid_string(row.actor_id),
        reason: row.reason,
        updated_at: row.updated_at,
    })
}

/// A stored instance-state row.
#[derive(Clone, Debug)]
pub struct InstanceStateRow {
    pub instance_id: String,
    pub module_id: String,
    pub actual_state: String,
    pub transition_revision: i64,
    pub applied_revision: Option<i64>,
    pub drain_deadline: Option<i64>,
    pub error_code: Option<String>,
    pub updated_at: i64,
}

/// Why an instance-state row is unreadable: the first invalid field, in
/// reading order; `None` when it is readable.
pub open spec fn instance_row_failure(row: InstanceStateRow) -> Option<Seq<char>> {
    if module_id_from_text(row.module_id@) is None {
        Some("unknown runtime module id: "@ + row.module_id@)
    } else if module_state_from_text(row.actual_state@) is None {
        Some("unknown runtime actual state: "@ + row.actual_state@)
    } else if row.transition_revision < 0 || (row.applied_revision matches Some(a) && a < 0) {
        Some("negative runtime revision"@)
    } else {
        None
    }
}

/// Read an instance-state row: module, state and revisions must be valid.
pub fn instance_from_row(row: InstanceStateRow) -> (result: Result<InstanceStateRecord, RepositoryError>)
    ensures
        instance_row_failure(row) matches Some(message) ==> (result matches Err(RepositoryError::Consistency(text))
            && text@ == message),
        result is Ok <==> (module_id_from_text(row.module_id@) is Some && module_state_from_text(
            row.actual_state@,
        ) is Some && row.transition_revision >= 0 && (row.applied_revision is None
            || row.applied_revision->0 >= 0)),
        result matches Err(error) ==> error is Consistency,
        result matches Ok(record) ==> {
            &&& record.instance_id == row.instance_id
            &&& Some(record.module_id) == module_id_from_text(row.module_id@)
            &&& Some(record.state) == module_state_from_text(row.actual_state@)
            &&& record.transition_revision == row.transition_revision
            &&& record.applied_revision == match row.applied_revision {
                Some(a) => Some(a as u64),
                None => None,
            }
            &&& record.drain_deadline == row.drain_deadline
            &&& record.error_code == row.error_code
            &&& record.updated_at == row.updated_at
        },
{
    let module_id = parse_module_id(row.module_id.as_str())?;
    let state = parse_actual_state(row.actual_state.as_str())?;
    let transition_revision = parse_revision(row.transition_revision)?;
    let applied_revision = match row.applied_revision {
        Some(value) => Some(parse_revision(value)?),
        None => None,
    };
    Ok(InstanceStateRecord {
        instance_id: row.instance_id,
        module_id,
        state,
        transition_revision,
        applied_revision,
        drain_deadline: row.drain_deadline,
        error_code: row.error_code,
        updated_at: row.updated_at,
    })
}

/// A stored event row.
#[derive(Clone, Debug)]
pub struct ModuleEventRow {
    pub event_id: u128,
    pub module_id: String,
    pub event_type: String,
    pub revision: i64,
    pub instance_id: Option<String>,
    pub actor_id: Option<u128>,
    pub reason: Option<String>,
    pub before_state: Option<String>,
    pub after_state: Option<String>,
    pub outcome_code: Option<String>,
    pub occurred_at: i64,
}

/// The state a stored event-state name reads as, for an event type.
pub open spec fn event_state_from_text(event_type: ModuleEventType, text: Seq<char>) -> Option<ModuleEventState> {
    if event_type == ModuleEventType::DesiredStateChanged {
        match desired_mode_from_text(text) {
            Some(mode) => Some(ModuleEventState::Desired(mode)),
            None => None,
        }
    } else {
        match module_state_from_text(text) {
            Some(state) => Some(ModuleEventState::Actual(state)),
            None => None,
        }
    }
}

pub open spec fn optional_state_readable(event_type: ModuleEventType, text: Option<String>) -> bool {
    text matches Some(t) ==> event_state_from_text(event_type, t@) is Some
}

pub open spec fn optional_state_of(event_type: ModuleEventType, text: Option<String>) -> Option<ModuleEventState> {
    match text {
        Some(t) => event_state_from_text(event_type, t@),
        None => None,
    }
}

fn optional_event_state(event_type: ModuleEventType, text: &Option<String>) -> (result: Result<Option<ModuleEventState>, RepositoryError>)
    ensures
        result is Ok <==> optional_state_readable(event_type, *text),
        result matches Ok(state) ==> state == optional_state_of(event_type, *text),
        result matches Err(error) ==> error is Consistency,
        !optional_state_readable(event_type, *text) ==> (result matches Err(RepositoryError::Consistency(message))
            && message@ == event_state_failure(event_type, text->0@)),
{
    match text {
        Some(t) => Ok(Some(parse_event_state(event_type, t.as_str())?)),
        None => Ok(None),
    }
}

/// The message an unreadable event-state name is refused with.
pub open spec fn event_state_failure(event_type: ModuleEventType, text: Seq<char>) -> Seq<char> {
    if event_type == ModuleEventType::DesiredStateChanged {
        "unknown runtime desired mode: "@ + text
    } else {
        "unknown runtime actual state: "@ + text
    }
}

/// Why an event row is unreadable: the first invalid field, in reading
/// order; `None` when it is readable.
pub open spec fn event_row_failure(row: ModuleEventRow) -> Option<Seq<char>> {
    match event_type_from_text(row.event_type@) {
        None => Some("unknown runtime event type: "@ + row.event_type@),
        Some(event_type) => if module_id_from_text(row.module_id@) is None {
            Some("unknown runtime module id: "@ + row.module_id@)
        } else if row.revision < 0 {
            Some("negative runtime revision"@)
        } else if !optional_state_readable(event_type, row.before_state) {
            Some(event_state_failure(event_type, row.before_state->0@))
        } else if !optional_state_readable(event_type, row.after_state) {
            Some(event_state_failure(event_type, row.after_state->0@))
        } else {
            None
        },
    }
}

/// Read an event row: event type, module, revision, then the before and
/// after states (read by the event's kind) must be valid.
pub fn event_from_row(row: ModuleEventRow) -> (result: Result<ModuleEventRecord, RepositoryError>)
    ensures
        event_row_failure(row) matches Some(message) ==> (result matches Err(RepositoryError::Consistency(text))
            && text@ == message),
        result is Ok <==> (event_type_from_text(row.event_type@) matches Some(event_type)
            && module_id_from_text(row.module_id@) is Some && row.revision >= 0
            && optional_state_readable(event_type, row.before_state) && optional_state_readable(
            event_type,
            row.after_state,
        )),
        result matches Err(error) ==> error is Consistency,
        result matches Ok(event) ==> {
            &&& event.event_id == row.event_id
            &&& Some(event.event_type) == event_type_from_text(row.event_type@)
            &&& Some(event.module_id) == module_id_from_text(row.module_id@)
            &&& event.revision == row.revision
            &&& event.instance_id == row.instance_id
            &&& optional_uuid_text(row.actor_id, event.actor_id)
            &&& event.reason == row.reason
            &&& event.before == optional_state_of(event.event_type, row.before_state)
            &&& event.after == optional_state_of(event.event_type, row.after_state)
            &&& event.outcome_code == row.outcome_code
            &&& event.occurred_at == row.occurred_at
        },
{
    let event_type = parse_event_type(row.event_type.as_str())?;
    let module_id = parse_module_id(row.module_id.as_str())?;
    let revision = parse_revision(row.revision)?;
    let before = optional_event_state(event_type, &row.before_state)?;
    let after = optional_event_state(event_type, &row.after_state)?;
    Ok(ModuleEventRecord {
        event_id: row.event_id,
        module_id,
        event_type,
        revision,
        instance_id: row.instance_id,
        actor_id: optional_uuid_string(row.actor_id),
        reason: row.reason,
        before,
        after,
        outcome_code: row.outcome_code,
        occurred_at: row.occurred_at,
    })
}

} // verus!
