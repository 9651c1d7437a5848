//! The ownership check on a fetched snip.
use vstd::prelude::*;
use crate::json::{first_record_str_member, json_first_member, opt_view};

verus! {

/// A failure of the record store, or a reply from it that cannot be read.
#[derive(Clone, Copy, Debug, PartialEq, Eq, Structural)]
pub enum StoreError {
    /// The request to the store did not complete with a body.
    Unavailable,
    /// The store answered with a body that is not JSON.
    MalformedReply,
}

/// The result of comparing a credential with a snip's owner.
#[derive(Clone, Copy, Debug, PartialEq, Eq, Structural)]
pub enum AuthorizationDecision {
    Allowed,
    DeniedNotOwner,
    /// The snip records no owner, so nobody may delete it here.
    DeniedNoOwner,
    /// The store holds no snip with the identifier.
    NotFound,
}

/// A fetched snip as the check sees it: `None` when the store returned no
/// record, `Some(None)` when the record has no string `user_id`, and
/// `Some(Some(owner))` otherwise.
pub type OwnerRecord = Option<Option<String>>;

/// A fetched record with its strings as character sequences.
pub open spec fn record_view(rec: OwnerRecord) -> Option<Option<Seq<char>>> {
    match rec {
        None => None,
        Some(o) => Some(opt_view(o)),
    }
}

/// The record read from the store's reply to a filtered read.
pub open spec fn record_of(reply: Seq<char>) -> Result<Option<Option<Seq<char>>>, StoreError> {
    match json_first_member(reply, "user_id"@) {
        None => Err(StoreError::MalformedReply),
        Some(rec) => Ok(rec),
    }
}

/// The ownership rule. A missing or empty owner denies every caller; else
/// the credential must equal the owner exactly.
pub open spec fn decision_of(
    rec: Option<Option<Seq<char>>>,
    credential: Seq<char>,
) -> AuthorizationDecision {
    match rec {
        None => AuthorizationDecision::NotFound,
        Some(None) => AuthorizationDecision::DeniedNoOwner,
        Some(Some(owner)) => if owner.len() == 0 {
            AuthorizationDecision::DeniedNoOwner
        } else if owner == credential {
            AuthorizationDecision::Allowed
        } else {
            AuthorizationDecision::DeniedNotOwner
        },
    }
}

/// Reads the first record of the store's reply and its `user_id`.
pub fn owner_record(reply: &str) -> (r: Result<OwnerRecord, StoreError>)
    ensures
        match r {
            Ok(rec) => record_of(reply@) == Ok::<Option<Option<Seq<char>>>, StoreError>(
                record_view(rec),
            ),
            Err(e) => record_of(reply@) == Err::<Option<Option<Seq<char>>>, StoreError>(e),
        },
{
    match first_record_str_member(reply, "user_id") {
        Ok(rec) => Ok(rec),
        Err(_) => Err(StoreError::MalformedReply),
    }
}

/// Decides whether the holder of `credential` may delete the record.
pub fn decide(rec: &OwnerRecord, credential: &str) -> (r: AuthorizationDecision)
    ensures
        r == decision_of(record_view(*rec), credential@),
{
    match rec {
        None => AuthorizationDecision::NotFound,
        Some(None) => AuthorizationDecision::DeniedNoOwner,
        Some(Some(owner)) => {
            if owner.unicode_len() == 0 {
                AuthorizationDecision::DeniedNoOwner
            } else if *owner == credential.to_owned() {
                AuthorizationDecision::Allowed
            } else {
                AuthorizationDecision::DeniedNotOwner
            }
        },
    }
}

/// Reads the store's reply for the target snip and decides on `credential`.
pub fn authorize(reply: &str, credential: &str) -> (r: Result<AuthorizationDecision, StoreError>)
    ensures
        match record_of(reply@) {
            Ok(rec) => r == Ok::<AuthorizationDecision, StoreError>(decision_of(rec, credential@)),
            Err(e) => r == Err::<AuthorizationDecision, StoreError>(e),
        },
{
    match owner_record(reply) {
        Ok(rec) => Ok(decide(&rec, credential)),
        Err(e) => Err(e),
    }
}

} // verus!
