//! User-to-client grants: how the administration view reads the stored
//! scopes of a grant, and how a failed grant revocation is reported.

use vstd::prelude::*;

use crate::clients::PortError;

verus! {

/// The strings among the items of a JSON array, in order; other items are
/// skipped.
pub open spec fn strings_among(items: Seq<Option<String>>) -> Seq<Seq<char>>
    decreases items.len(),
{
    if items.len() == 0 {
        Seq::empty()
    } else {
        let earlier = strings_among(items.drop_last());
        match items.last() {
            Some(text) => earlier.push(text@),
            None => earlier,
        }
    }
}

/// The last scopes of a grant as the administration view shows them.
/// `items` is the stored JSON value read as an array, each item a string or
/// not (`None` when the value is no array at all): the strings are kept in
/// order and everything else is dropped.
pub fn last_scopes(items: Option<Vec<Option<String>>>) -> (scopes: Vec<String>)
    ensures
        match items {
            None => scopes@.len() == 0,
            Some(list) => scopes@.map_values(|s: String| s@) == strings_among(list@),
        },
{
    let mut scopes: Vec<String> = Vec::new();
    match items {
        None => {},
        Some(list) => {
            let mut i: usize = 0;
            while i < list.len()
                invariant
                    i <= list@.len(),
                    scopes@.map_values(|s: String| s@) == strings_among(list@.take(i as int)),
                decreases list@.len() - i,
            {
                assert(list@.take(i as int + 1).drop_last() =~= list@.take(i as int));
                assert(list@.take(i as int + 1).last() == list@[i as int]);
                match &list[i] {
                    Some(text) => {
                        let ghost before = scopes@;
                        scopes.push(text.clone());
                        assert(scopes@.map_values(|s: String| s@) =~= before.map_values(
                            |s: String| s@,
                        ).push(text@));
                    },
                    None => {},
                }
                i = i + 1;
            }
            assert(list@.take(list@.len() as int) =~= list@);
        },
    }
    scopes
}

/// The step of an administrative grant revocation that failed.
#[derive(Clone, Copy, Debug, PartialEq, Eq, Structural)]
pub enum GrantRevokeFailure {
    /// The client named by the request does not exist in the tenant.
    ClientNotFound,
    /// Looking the client up failed in the store.
    ClientLookup,
    /// Revoking tokens or removing the grant failed in the store.
    Revoke,
}

/// How an administrative grant revocation reports its failure.
#[derive(Clone, Copy, Debug, PartialEq, Eq, Structural)]
pub enum AdminGrantRevokeError {
    ClientNotFound,
    ClientLookup(PortError),
    Revoke(PortError),
}

/// A store failure in either step is reported as unexpected to the port; a
/// missing client stays a missing client.
pub fn admin_grant_revoke_error(failure: GrantRevokeFailure) -> (error: AdminGrantRevokeError)
    ensures
        failure == GrantRevokeFailure::ClientNotFound ==> error == AdminGrantRevokeError::ClientNotFound,
        failure == GrantRevokeFailure::ClientLookup ==> error == AdminGrantRevokeError::ClientLookup(
            PortError::Unexpected,
        ),
        failure == GrantRevokeFailure::Revoke ==> error == AdminGrantRevokeError::Revoke(
            PortError::Unexpected,
        ),
{
    match failure {
        GrantRevokeFailure::ClientNotFound => AdminGrantRevokeError::ClientNotFound,
        GrantRevokeFailure::ClientLookup => AdminGrantRevokeError::ClientLookup(PortError::Unexpected),
        GrantRevokeFailure::Revoke => AdminGrantRevokeError::Revoke(PortError::Unexpected),
    }
}

} // verus!
