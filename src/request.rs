//! The inbound delete request and its validation.
use vstd::prelude::*;
use crate::json::{json_member, str_member};

verus! {

/// The `Authorization` header of a request, as the transport hands it over.
#[derive(Clone, Debug, PartialEq, Eq)]
pub enum AuthHeader {
    /// No header of that name.
    Absent,
    /// A header whose value is not visible ASCII text.
    Undecodable,
    /// A header with this text as its value.
    Text(String),
}

/// One inbound delete request.
#[derive(Clone, Debug, PartialEq, Eq)]
pub struct DeleteRequest {
    pub http_method: String,
    pub body: Option<String>,
    pub authorization: AuthHeader,
}

/// Why a request was rejected before any decision on ownership.
#[derive(Clone, Copy, Debug, PartialEq, Eq, Structural)]
pub enum ValidationError {
    WrongMethod,
    MissingBody,
    MalformedJson,
    /// The body has no string member `id`.
    MissingField,
    /// The request has no `Authorization` header.
    MissingHeader,
    /// The `Authorization` header is not text or lacks the `Bearer ` scheme.
    InvalidAuthScheme,
}

/// The only accepted method.
pub open spec fn delete_verb() -> Seq<char> {
    "DELETE"@
}

/// The scheme that must open the `Authorization` header.
pub open spec fn bearer_prefix() -> Seq<char> {
    "Bearer "@
}

/// The credential carried by an `Authorization` value: what follows the
/// literal `Bearer ` prefix, character for character.
pub open spec fn bearer_of(value: Seq<char>) -> Option<Seq<char>> {
    let n = bearer_prefix().len();
    if value.len() >= n && value.subrange(0, n as int) == bearer_prefix() {
        Some(value.subrange(n as int, value.len() as int))
    } else {
        None
    }
}

/// The identifier of the snip a request targets, or why it names none.
pub open spec fn target_of(req: DeleteRequest) -> Result<Seq<char>, ValidationError> {
    if req.http_method@ != delete_verb() {
        Err(ValidationError::WrongMethod)
    } else {
        match req.body {
            None => Err(ValidationError::MissingBody),
            Some(b) => match json_member(b@, "id"@) {
                None => Err(ValidationError::MalformedJson),
                Some(None) => Err(ValidationError::MissingField),
                Some(Some(id)) => Ok(id),
            },
        }
    }
}

/// The requester's credential, or why the request carries none.
pub open spec fn credential_of(auth: AuthHeader) -> Result<Seq<char>, ValidationError> {
    match auth {
        AuthHeader::Absent => Err(ValidationError::MissingHeader),
        AuthHeader::Undecodable => Err(ValidationError::InvalidAuthScheme),
        AuthHeader::Text(t) => match bearer_of(t@) {
            Some(c) => Ok(c),
            None => Err(ValidationError::InvalidAuthScheme),
        },
    }
}

/// Extracts the credential from an `Authorization` value.
pub fn bearer_credential(value: &str) -> (r: Option<String>)
    ensures
        match r {
            Some(c) => bearer_of(value@) == Some(c@),
            None => bearer_of(value@).is_none(),
        },
{
    let prefix = "Bearer ";
    let n = value.unicode_len();
    let p = prefix.unicode_len();
    if n < p {
        return None;
    }
    let head = value.substring_char(0, p).to_owned();
    if head == prefix.to_owned() {
        Some(value.substring_char(p, n).to_owned())
    } else {
        None
    }
}

/// Checks the method and the body and reads the target identifier.
pub fn target_id(req: &DeleteRequest) -> (r: Result<String, ValidationError>)
    ensures
        match r {
            Ok(id) => target_of(*req) == Ok::<Seq<char>, ValidationError>(id@),
            Err(e) => target_of(*req) == Err::<Seq<char>, ValidationError>(e),
        },
{
    if req.http_method != "DELETE".to_owned() {
        return Err(ValidationError::WrongMethod);
    }
    match &req.body {
        None => Err(ValidationError::MissingBody),
        Some(b) => match str_member(b.as_str(), "id") {
            Err(_) => Err(ValidationError::MalformedJson),
            Ok(None) => Err(ValidationError::MissingField),
            Ok(Some(id)) => Ok(id),
        },
    }
}

/// Reads the requester's credential from the `Authorization` header.
pub fn credential(auth: &AuthHeader) -> (r: Result<String, ValidationError>)
    ensures
        match r {
            Ok(c) => credential_of(*auth) == Ok::<Seq<char>, ValidationError>(c@),
            Err(e) => credential_of(*auth) == Err::<Seq<char>, ValidationError>(e),
        },
{
    match auth {
        AuthHeader::Absent => Err(ValidationError::MissingHeader),
        AuthHeader::Undecodable => Err(ValidationError::InvalidAuthScheme),
        AuthHeader::Text(t) => match bearer_credential(t.as_str()) {
            Some(c) => Ok(c),
            None => Err(ValidationError::InvalidAuthScheme),
        },
    }
}

/// Validates a whole request: the method, the body and its `id`, then the
/// `Authorization` header. Returns the target identifier and the credential.
pub fn validate(req: &DeleteRequest) -> (r: Result<(String, String), ValidationError>)
    ensures
        match r {
            Ok((id, c)) => target_of(*req) == Ok::<Seq<char>, ValidationError>(id@)
                && credential_of(req.authorization) == Ok::<Seq<char>, ValidationError>(c@),
            Err(e) => target_of(*req) == Err::<Seq<char>, ValidationError>(e) || (
            target_of(*req) is Ok && credential_of(req.authorization) == Err::<
                Seq<char>,
                ValidationError,
            >(e)),
        },
{
    let id = match target_id(req) {
        Ok(id) => id,
        Err(e) => return Err(e),
    };
    match credential(&req.authorization) {
        Ok(c) => Ok((id, c)),
        Err(e) => Err(e),
    }
}

} // verus!
