//! OAuth client persistence rules: reading the JSON string-list columns,
//! the outcome of replacing a registration, and how store failures reach
//! the admin and registration ports.

use vstd::prelude::*;

use crate::error::{RepositoryError, StoreFailure, StoreFailureKind};
use crate::text::concat_text;

verus! {

/// The list of strings `serde_json` reads from a JSON text's value as
/// `Vec<String>`, or `None` when the text is not a JSON array of strings.
pub uninterp spec fn json_string_list_of(text: Seq<u8>) -> Option<Seq<Seq<char>>>;

/// The message `serde_json::Error` displays when a JSON text's value is not
/// read as `Vec<String>`.
pub uninterp spec fn json_string_list_error_of(text: Seq<u8>) -> Seq<char>;

/// Reads the stored JSON value back from its text
/// (`serde_json::from_slice::<serde_json::Value>`, the inverse of how the
/// column value is handed over) and converts it with
/// `serde_json::from_value::<Vec<String>>`, rendering a failure with
/// `to_string`.  Trusted: the list is `json_string_list_of` of the text and
/// the message `json_string_list_error_of` of it, both functions of the
/// bytes alone.
#[verifier::external_body]
fn decode_json_string_list(text: &[u8]) -> (result: Result<Vec<String>, String>)
    ensures
        match result {
            Ok(values) => json_string_list_of(text@) == Some(values@.map_values(|value: String| value@)),
            Err(message) => json_string_list_of(text@) is None && message@ == json_string_list_error_of(
                text@,
            ),
        },
{
    serde_json::from_slice::<serde_json::Value>(text)
        .and_then(serde_json::from_value::<Vec<String>>)
        .map_err(|error| error.to_string())
}

/// Read a persisted string-list column (`text` is its JSON) of the client
/// field `field`: anything but a JSON array of strings is an unexpected
/// state naming the field.
pub fn string_array(text: &[u8], field: &str) -> (result: Result<Vec<String>, RepositoryError>)
    ensures
        match json_string_list_of(text@) {
            Some(values) => result matches Ok(list) && list@.map_values(|value: String| value@) == values,
            None => result matches Err(RepositoryError::Unexpected(message)) && message@
                == "invalid OAuth client "@ + field@ + ": "@ + json_string_list_error_of(text@),
        },
{
    match decode_json_string_list(text) {
        Ok(values) => Ok(values),
        Err(error) => {
            let head = concat_text("invalid OAuth client ", field);
            let head = concat_text(head.as_str(), ": ");
            Err(RepositoryError::Unexpected(concat_text(head.as_str(), error.as_str())))
        },
    }
}

/// A registration replacement touches exactly the one active client it
/// names; no row changed means the client is gone or inactive.
pub fn registration_replaced(changed: usize) -> (result: Result<(), RepositoryError>)
    ensures
        changed == 1 ==> result is Ok,
        changed != 1 ==> result == Err::<(), RepositoryError>(RepositoryError::NotFound),
{
    if changed == 1 {
        Ok(())
    } else {
        Err(RepositoryError::NotFound)
    }
}

/// How a failed client store operation is reported: a missing row is
/// `NotFound`, anything else unexpected with the store's description.
pub fn client_store_error(failure: StoreFailure) -> (error: RepositoryError)
    ensures
        failure.kind == StoreFailureKind::NotFound ==> error == RepositoryError::NotFound,
        failure.kind != StoreFailureKind::NotFound ==> error == RepositoryError::Unexpected(failure.message),
{
    match failure.kind {
        StoreFailureKind::NotFound => RepositoryError::NotFound,
        _ => RepositoryError::Unexpected(failure.message),
    }
}

/// The errors the authorization-facing ports (client administration,
/// authorization flow, device grants) report.
#[derive(Clone, Copy, Debug, PartialEq, Eq, Structural)]
pub enum PortError {
    Unavailable,
    Conflict,
    CorruptData,
    Unexpected,
}

/// Repository errors as the authorization-facing ports report them.
pub fn port_error(error: RepositoryError) -> (mapped: PortError)
    ensures
        error is Unavailable ==> mapped == PortError::Unavailable,
        error is Conflict || error is AlreadyProcessed ==> mapped == PortError::Conflict,
        error is Consistency ==> mapped == PortError::CorruptData,
        error is NotFound || error is Unexpected ==> mapped == PortError::Unexpected,
{
    match error {
        RepositoryError::Unavailable => PortError::Unavailable,
        RepositoryError::Conflict | RepositoryError::AlreadyProcessed => PortError::Conflict,
        RepositoryError::Consistency(_) => PortError::CorruptData,
        RepositoryError::NotFound | RepositoryError::Unexpected(_) => PortError::Unexpected,
    }
}

/// A grant written through a tenant-scoped flow must belong to that
/// tenant; anything else is corrupt input.
pub fn require_flow_tenant(write_tenant_id: u128, flow_tenant_id: u128) -> (result: Result<(), PortError>)
    ensures
        write_tenant_id == flow_tenant_id ==> result is Ok,
        write_tenant_id != flow_tenant_id ==> result == Err::<(), PortError>(PortError::CorruptData),
{
    if write_tenant_id != flow_tenant_id {
        Err(PortError::CorruptData)
    } else {
        Ok(())
    }
}

/// How dynamic client registration reports a failed credential mutation.
#[derive(Clone, Copy, Debug, PartialEq, Eq, Structural)]
pub enum DynamicRegistrationFailure {
    /// The client vanished or was deactivated: the presented credentials are stale.
    StaleCredentials,
    Unavailable,
}

pub fn dynamic_registration_error(error: RepositoryError) -> (mapped: DynamicRegistrationFailure)
    ensures
        error is NotFound ==> mapped == DynamicRegistrationFailure::StaleCredentials,
        !(error is NotFound) ==> mapped == DynamicRegistrationFailure::Unavailable,
{
    match error {
        RepositoryError::NotFound => DynamicRegistrationFailure::StaleCredentials,
        _ => DynamicRegistrationFailure::Unavailable,
    }
}

/// The JSON string-list columns of a persisted OAuth client, in the order
/// in which they are read.
#[derive(Clone, Debug)]
pub struct ClientListColumns {
    pub redirect_uris: Vec<u8>,
    pub post_logout_redirect_uris: Vec<u8>,
    pub scopes: Vec<u8>,
    pub allowed_audiences: Vec<u8>,
    pub grant_types: Vec<u8>,
    pub tls_client_auth_san_dns: Vec<u8>,
    pub tls_client_auth_san_uri: Vec<u8>,
    pub tls_client_auth_san_ip: Vec<u8>,
    pub tls_client_auth_san_email: Vec<u8>,
    pub request_uris: Vec<u8>,
}

/// The string lists of a persisted OAuth client.
#[derive(Clone, Debug)]
pub struct ClientLists {
    pub redirect_uris: Vec<String>,
    pub post_logout_redirect_uris: Vec<String>,
    pub scopes: Vec<String>,
    pub allowed_audiences: Vec<String>,
    pub grant_types: Vec<String>,
    pub tls_client_auth_san_dns: Vec<String>,
    pub tls_client_auth_san_uri: Vec<String>,
    pub tls_client_auth_san_ip: Vec<String>,
    pub tls_client_auth_san_email: Vec<String>,
    pub request_uris: Vec<String>,
}

/// Whether `list` is the string list read from the JSON text `text`.
pub open spec fn list_decoded(text: Seq<u8>, list: Vec<String>) -> bool {
    json_string_list_of(text) == Some(list@.map_values(|value: String| value@))
}

/// The message reading the list column `field` fails with, if it fails.
pub open spec fn list_failure(text: Seq<u8>, field: Seq<char>) -> Option<Seq<char>> {
    if json_string_list_of(text) is None {
        Some("invalid OAuth client "@ + field + ": "@ + json_string_list_error_of(text))
    } else {
        None
    }
}

pub open spec fn first_of(earlier: Option<Seq<char>>, later: Option<Seq<char>>) -> Option<Seq<char>> {
    if earlier is Some {
        earlier
    } else {
        later
    }
}

/// The failure of the first list column, in reading order, that is not a
/// JSON array of strings.
pub open spec fn first_list_failure(columns: ClientListColumns) -> Option<Seq<char>> {
    let failure = list_failure(columns.redirect_uris@, "redirect_uris"@);
    let failure = first_of(failure, list_failure(columns.post_logout_redirect_uris@, "post_logout_redirect_uris"@));
    let failure = first_of(failure, list_failure(columns.scopes@, "scopes"@));
    let failure = first_of(failure, list_failure(columns.allowed_audiences@, "allowed_audiences"@));
    let failure = first_of(failure, list_failure(columns.grant_types@, "grant_types"@));
    let failure = first_of(failure, list_failure(columns.tls_client_auth_san_dns@, "tls_client_auth_san_dns"@));
    let failure = first_of(failure, list_failure(columns.tls_client_auth_san_uri@, "tls_client_auth_san_uri"@));
    let failure = first_of(failure, list_failure(columns.tls_client_auth_san_ip@, "tls_client_auth_san_ip"@));
    let failure = first_of(failure, list_failure(columns.tls_client_auth_san_email@, "tls_client_auth_san_email"@));
    let failure = first_of(failure, list_failure(columns.request_uris@, "request_uris"@));
    failure
}

/// Read every string-list column of a persisted client: the first column,
/// in reading order, that is not a JSON array of strings fails the whole
/// record with a message naming that column.
pub fn read_client_lists(columns: &ClientListColumns) -> (result: Result<ClientLists, RepositoryError>)
    ensures
        match first_list_failure(*columns) {
            Some(message) => result matches Err(RepositoryError::Unexpected(m)) && m@ == message,
            None => result matches Ok(lists) && {
            &&& list_decoded(columns.redirect_uris@, lists.redirect_uris)
            &&& list_decoded(columns.post_logout_redirect_uris@, lists.post_logout_redirect_uris)
            &&& list_decoded(columns.scopes@, lists.scopes)
            &&& list_decoded(columns.allowed_audiences@, lists.allowed_audiences)
            &&& list_decoded(columns.grant_types@, lists.grant_types)
            &&& list_decoded(columns.tls_client_auth_san_dns@, lists.tls_client_auth_san_dns)
            &&& list_decoded(columns.tls_client_auth_san_uri@, lists.tls_client_auth_san_uri)
            &&& list_decoded(columns.tls_client_auth_san_ip@, lists.tls_client_auth_san_ip)
            &&& list_decoded(columns.tls_client_auth_san_email@, lists.tls_client_auth_san_email)
            &&& list_decoded(columns.request_uris@, lists.request_uris)
            },
        },
{
    let redirect_uris = match string_array(columns.redirect_uris.as_slice(), "redirect_uris") {
        Ok(values) => values,
        Err(error) => return Err(error),
    };
    let post_logout_redirect_uris = match string_array(columns.post_logout_redirect_uris.as_slice(), "post_logout_redirect_uris") {
        Ok(values) => values,
        Err(error) => return Err(error),
    };
    let scopes = match string_array(columns.scopes.as_slice(), "scopes") {
        Ok(values) => values,
        Err(error) => return Err(error),
    };
    let allowed_audiences = match string_array(columns.allowed_audiences.as_slice(), "allowed_audiences") {
        Ok(values) => values,
        Err(error) => return Err(error),
    };
    let grant_types = match string_array(columns.grant_types.as_slice(), "grant_types") {
        Ok(values) => values,
        Err(error) => return Err(error),
    };
    let tls_client_auth_san_dns = match string_array(columns.tls_client_auth_san_dns.as_slice(), "tls_client_auth_san_dns") {
        Ok(values) => values,
        Err(error) => return Err(error),
    };
    let tls_client_auth_san_uri = match string_array(columns.tls_client_auth_san_uri.as_slice(), "tls_client_auth_san_uri") {
        Ok(values) => values,
        Err(error) => return Err(error),
    };
    let tls_client_auth_san_ip = match string_array(columns.tls_client_auth_san_ip.as_slice(), "tls_client_auth_san_ip") {
        Ok(values) => values,
        Err(error) => return Err(error),
    };
    let tls_client_auth_san_email = match string_array(columns.tls_client_auth_san_email.as_slice(), "tls_client_auth_san_email") {
        Ok(values) => values,
        Err(error) => return Err(error),
    };
    let request_uris = match string_array(columns.request_uris.as_slice(), "request_uris") {
        Ok(values) => values,
        Err(error) => return Err(error),
    };
    Ok(ClientLists {
        redirect_uris,
        post_logout_redirect_uris,
        scopes,
        allowed_audiences,
        grant_types,
        tls_client_auth_san_dns,
        tls_client_auth_san_uri,
        tls_client_auth_san_ip,
        tls_client_auth_san_email,
        request_uris,
    })
}

} // verus!
