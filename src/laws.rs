//! Properties of whole delete requests, stated against a model of the store.
use vstd::prelude::*;
use crate::authorize::{decision_of, AuthorizationDecision, StoreError};
use crate::json::json_member;
use crate::request::{
    bearer_of, credential_of, delete_verb, target_of, AuthHeader, DeleteRequest, ValidationError,
};
use crate::response::{message_of, status_of, Outcome};
use crate::session::{begin_plan, deleted_outcome, record_plan, Plan};

verus! {

/// The store as the ownership check sees it: for each identifier held, the
/// record's `user_id` when it is a string.
pub type StoreModel = Map<Seq<char>, Option<Seq<char>>>;

/// What a filtered read by `id` returns, in the form `record_plan` takes.
pub open spec fn lookup(store: StoreModel, id: Seq<char>) -> Option<Option<Seq<char>>> {
    if store.dom().contains(id) {
        Some(store[id])
    } else {
        None
    }
}

/// One request against a store that answers every call: the outcome, the
/// store afterwards, and how many reads and deletes were sent.
pub open spec fn run(req: DeleteRequest, store: StoreModel) -> (Outcome, StoreModel, nat, nat) {
    match begin_plan(req) {
        Plan::FetchRecord(id) => match record_plan(req, id, lookup(store, id)) {
            Plan::DeleteRecord(d) => (deleted_outcome(Ok(())), store.remove(d), 1, 1),
            Plan::Finish(o) => (o, store, 1, 0),
            Plan::FetchRecord(_) => (Outcome::StoreFailure(StoreError::Unavailable), store, 1, 0),
        },
        Plan::Finish(o) => (o, store, 0, 0),
        Plan::DeleteRecord(_) => (Outcome::StoreFailure(StoreError::Unavailable), store, 0, 0),
    }
}

/// A request with any method but `DELETE` gets 400 with the wrong-method
/// message, and the store is never called.
pub proof fn lemma_wrong_method(req: DeleteRequest, store: StoreModel)
    requires
        req.http_method@ != delete_verb(),
    ensures
        run(req, store) == (Outcome::Invalid(ValidationError::WrongMethod), store, 0nat, 0nat),
        status_of(run(req, store).0) == 400,
        message_of(run(req, store).0) == "Wrong HTTP method!"@,
{
}

/// A `DELETE` request without a body gets 400, and the store is never called.
pub proof fn lemma_missing_body(req: DeleteRequest, store: StoreModel)
    requires
        req.http_method@ == delete_verb(),
        req.body is None,
    ensures
        run(req, store) == (Outcome::Invalid(ValidationError::MissingBody), store, 0nat, 0nat),
        status_of(run(req, store).0) == 400,
{
}

/// A `DELETE` request whose body is JSON without a string `id` gets 400, and
/// the store is never called.
pub proof fn lemma_missing_id(req: DeleteRequest, store: StoreModel)
    requires
        req.http_method@ == delete_verb(),
        req.body matches Some(b) && json_member(b@, "id"@) == Some(
            None::<Seq<char>>,
        ),
    ensures
        run(req, store) == (Outcome::Invalid(ValidationError::MissingField), store, 0nat, 0nat),
        status_of(run(req, store).0) == 400,
{
}

/// A well-formed request without an `Authorization` header gets 400. The
/// snip is read first, once, and nothing is deleted.
pub proof fn lemma_missing_header(req: DeleteRequest, store: StoreModel)
    requires
        target_of(req) is Ok,
        req.authorization is Absent,
    ensures
        run(req, store) == (Outcome::Invalid(ValidationError::MissingHeader), store, 1nat, 0nat),
        status_of(run(req, store).0) == 400,
{
}

/// A well-formed request whose `Authorization` value does not start with
/// `Bearer ` gets 401, and nothing is deleted.
pub proof fn lemma_wrong_scheme(req: DeleteRequest, store: StoreModel)
    requires
        target_of(req) is Ok,
        req.authorization matches AuthHeader::Text(t) && bearer_of(t@) is None,
    ensures
        run(req, store).0 == Outcome::Invalid(ValidationError::InvalidAuthScheme),
        status_of(run(req, store).0) == 401,
        run(req, store).1 == store,
        run(req, store).3 == 0,
{
}

/// A snip with no owner, or an empty one, cannot be deleted by any valid
/// credential: 403, and nothing is deleted.
pub proof fn lemma_ownerless(req: DeleteRequest, store: StoreModel, id: Seq<char>)
    requires
        target_of(req) == Ok::<Seq<char>, ValidationError>(id),
        credential_of(req.authorization) is Ok,
        lookup(store, id) == Some(None::<Seq<char>>) || lookup(store, id) == Some(
            Some(Seq::<char>::empty()),
        ),
    ensures
        run(req, store) == (Outcome::NotDeletable, store, 1nat, 0nat),
        status_of(run(req, store).0) == 403,
{
}

/// The owner's own credential deletes the snip: one read, exactly one
/// delete, and 200 with the success message.
pub proof fn lemma_owner_deletes(req: DeleteRequest, store: StoreModel, id: Seq<char>)
    requires
        target_of(req) == Ok::<Seq<char>, ValidationError>(id),
        credential_of(req.authorization) matches Ok(c) && c.len() > 0 && lookup(store, id) == Some(
            Some(c),
        ),
    ensures
        run(req, store) == (Outcome::Deleted, store.remove(id), 1nat, 1nat),
        status_of(run(req, store).0) == 200,
        message_of(run(req, store).0) == "Snip deleted successfully!"@,
{
}

/// A credential other than the recorded owner gets 401, and nothing is
/// deleted.
pub proof fn lemma_other_denied(
    req: DeleteRequest,
    store: StoreModel,
    id: Seq<char>,
    owner: Seq<char>,
)
    requires
        target_of(req) == Ok::<Seq<char>, ValidationError>(id),
        credential_of(req.authorization) matches Ok(c) && c != owner,
        owner.len() > 0,
        lookup(store, id) == Some(Some(owner)),
    ensures
        run(req, store) == (Outcome::NotOwner, store, 1nat, 0nat),
        status_of(run(req, store).0) == 401,
{
}

/// Sending the same request twice: when the first deletes the snip, the
/// second finds nothing (404); the second never meets a store failure.
pub proof fn lemma_repeat_delete(req: DeleteRequest, store: StoreModel)
    ensures
        run(req, store).0 == Outcome::Deleted ==> run(req, run(req, store).1).0
            == Outcome::NotFound,
        run(req, store).0 == Outcome::Deleted ==> status_of(run(req, run(req, store).1).0) == 404,
        !(run(req, run(req, store).1).0 is StoreFailure),
{
    if let Plan::FetchRecord(id) = begin_plan(req) {
        let s1 = run(req, store).1;
        if run(req, store).0 == Outcome::Deleted {
            assert(s1 == store.remove(id));
            assert(lookup(s1, id) is None);
        }
    }
}

/// A delete reaches the store if and only if the request is valid and the
/// ownership rule allows it; it is then sent once, for the target.
pub proof fn lemma_delete_only_when_allowed(req: DeleteRequest, store: StoreModel)
    ensures
        run(req, store).3 <= 1,
        run(req, store).3 == 1 <==> (target_of(req) matches Ok(id) && credential_of(
            req.authorization,
        ) matches Ok(c) && decision_of(lookup(store, id), c) == AuthorizationDecision::Allowed),
        run(req, store).3 == 0 ==> run(req, store).1 == store,
{
}

} // verus!
