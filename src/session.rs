//! The delete request as a sequence of decisions. The caller performs each
//! store call that an `Action` asks for and hands its result to the next step.
use vstd::prelude::*;
use crate::authorize::{
    decide, decision_of, owner_record, record_of, record_view, AuthorizationDecision, OwnerRecord,
    StoreError,
};
use crate::request::{credential, credential_of, target_id, target_of, DeleteRequest};
use crate::response::Outcome;

verus! {

/// What the caller must do next.
#[derive(Clone, Debug, PartialEq, Eq)]
pub enum Action {
    /// Read the snip with this identifier from the store.
    FetchRecord(String),
    /// Delete the snip with this identifier from the store.
    DeleteRecord(String),
    /// Answer the request; no store call remains.
    Finish(Outcome),
}

/// `Action` with its identifiers as character sequences.
pub enum Plan {
    FetchRecord(Seq<char>),
    DeleteRecord(Seq<char>),
    Finish(Outcome),
}

impl View for Action {
    type V = Plan;

    open spec fn view(&self) -> Plan {
        match self {
            Action::FetchRecord(id) => Plan::FetchRecord(id@),
            Action::DeleteRecord(id) => Plan::DeleteRecord(id@),
            Action::Finish(o) => Plan::Finish(*o),
        }
    }
}

/// First step: a request with a valid method and target leads to a read of
/// that snip; any other ends at once.
pub open spec fn begin_plan(req: DeleteRequest) -> Plan {
    match target_of(req) {
        Ok(id) => Plan::FetchRecord(id),
        Err(e) => Plan::Finish(Outcome::Invalid(e)),
    }
}

/// Second step, once the record is read: the header is checked, then the
/// ownership rule decides between a delete and a refusal.
pub open spec fn record_plan(
    req: DeleteRequest,
    id: Seq<char>,
    rec: Option<Option<Seq<char>>>,
) -> Plan {
    match credential_of(req.authorization) {
        Err(e) => Plan::Finish(Outcome::Invalid(e)),
        Ok(c) => match decision_of(rec, c) {
            AuthorizationDecision::Allowed => Plan::DeleteRecord(id),
            AuthorizationDecision::NotFound => Plan::Finish(Outcome::NotFound),
            AuthorizationDecision::DeniedNoOwner => Plan::Finish(Outcome::NotDeletable),
            AuthorizationDecision::DeniedNotOwner => Plan::Finish(Outcome::NotOwner),
        },
    }
}

/// Second step from the store's raw reply to the read.
pub open spec fn fetched_plan(
    req: DeleteRequest,
    id: Seq<char>,
    fetched: Result<Seq<char>, StoreError>,
) -> Plan {
    match fetched {
        Err(e) => Plan::Finish(Outcome::StoreFailure(e)),
        Ok(reply) => match record_of(reply) {
            Err(e) => Plan::Finish(Outcome::StoreFailure(e)),
            Ok(rec) => record_plan(req, id, rec),
        },
    }
}

/// Last step, once the delete has been sent.
pub open spec fn deleted_outcome(done: Result<(), StoreError>) -> Outcome {
    match done {
        Ok(()) => Outcome::Deleted,
        Err(e) => Outcome::StoreFailure(e),
    }
}

/// The reply to a read, as a character sequence.
pub open spec fn fetched_view(f: Result<String, StoreError>) -> Result<Seq<char>, StoreError> {
    match f {
        Ok(s) => Ok(s@),
        Err(e) => Err(e),
    }
}

/// Decides the first step of a request.
pub fn begin(req: &DeleteRequest) -> (r: Action)
    ensures
        r@ == begin_plan(*req),
{
    match target_id(req) {
        Ok(id) => Action::FetchRecord(id),
        Err(e) => Action::Finish(Outcome::Invalid(e)),
    }
}

/// Decides the step after the read, from the record it returned.
pub fn after_record(req: &DeleteRequest, id: String, rec: &OwnerRecord) -> (r: Action)
    ensures
        r@ == record_plan(*req, id@, record_view(*rec)),
{
    match credential(&req.authorization) {
        Err(e) => Action::Finish(Outcome::Invalid(e)),
        Ok(c) => match decide(rec, c.as_str()) {
            AuthorizationDecision::Allowed => Action::DeleteRecord(id),
            AuthorizationDecision::NotFound => Action::Finish(Outcome::NotFound),
            AuthorizationDecision::DeniedNoOwner => Action::Finish(Outcome::NotDeletable),
            AuthorizationDecision::DeniedNotOwner => Action::Finish(Outcome::NotOwner),
        },
    }
}

/// Decides the step after the read, from the store's raw reply or failure.
pub fn after_fetch(req: &DeleteRequest, id: String, fetched: Result<String, StoreError>) -> (r:
    Action)
    ensures
        r@ == fetched_plan(*req, id@, fetched_view(fetched)),
{
    match fetched {
        Err(e) => Action::Finish(Outcome::StoreFailure(e)),
        Ok(reply) => match owner_record(reply.as_str()) {
            Err(e) => Action::Finish(Outcome::StoreFailure(e)),
            Ok(rec) => after_record(req, id, &rec),
        },
    }
}

/// The outcome once the delete has been sent.
pub fn after_delete(done: Result<(), StoreError>) -> (r: Outcome)
    ensures
        r == deleted_outcome(done),
{
    match done {
        Ok(()) => Outcome::Deleted,
        Err(e) => Outcome::StoreFailure(e),
    }
}

} // verus!
