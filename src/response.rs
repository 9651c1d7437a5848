//! The fixed mapping from each outcome of a delete request to a response.
use vstd::prelude::*;
use crate::authorize::StoreError;
use crate::request::ValidationError;

verus! {

/// How a delete request ended.
#[derive(Clone, Copy, Debug, PartialEq, Eq, Structural)]
pub enum Outcome {
    Invalid(ValidationError),
    NotFound,
    NotDeletable,
    NotOwner,
    Deleted,
    StoreFailure(StoreError),
}

/// A response: its status, whether it is labelled `application/json`, and
/// its body.
#[derive(Clone, Debug, PartialEq, Eq)]
pub struct Response {
    pub status_code: u16,
    pub json_content: bool,
    pub body: String,
}

/// The status code of each outcome.
pub open spec fn status_of(o: Outcome) -> u16 {
    match o {
        Outcome::Invalid(ValidationError::InvalidAuthScheme) => 401,
        Outcome::Invalid(_) => 400,
        Outcome::NotFound => 404,
        Outcome::NotDeletable => 403,
        Outcome::NotOwner => 401,
        Outcome::Deleted => 200,
        Outcome::StoreFailure(_) => 502,
    }
}

/// The decimal text of each status that `status_of` gives.
pub open spec fn status_text(code: u16) -> Seq<char> {
    if code == 200 {
        "200"@
    } else if code == 400 {
        "400"@
    } else if code == 401 {
        "401"@
    } else if code == 403 {
        "403"@
    } else if code == 404 {
        "404"@
    } else {
        "502"@
    }
}

/// The message of each outcome.
pub open spec fn message_of(o: Outcome) -> Seq<char> {
    match o {
        Outcome::Invalid(e) => match e {
            ValidationError::WrongMethod => "Wrong HTTP method!"@,
            ValidationError::MissingBody => "No body provided in request."@,
            ValidationError::MalformedJson => "Body is not valid JSON!"@,
            ValidationError::MissingField => "Missing required body key [id]!"@,
            ValidationError::MissingHeader => "Missing required header [Authorization]!"@,
            ValidationError::InvalidAuthScheme => "Wrong authorization scheme"@,
        },
        Outcome::NotFound => "Snip not found!"@,
        Outcome::NotDeletable => "Paste is not deleteable!"@,
        Outcome::NotOwner => "Authorization token invalid!"@,
        Outcome::Deleted => "Snip deleted successfully!"@,
        Outcome::StoreFailure(_) => "Record store unavailable!"@,
    }
}

/// The JSON object `{ "statusCode": <status>, "message": "<message>" }`.
pub open spec fn json_body(status: Seq<char>, message: Seq<char>) -> Seq<char> {
    "{ \"statusCode\": "@ + status + ", \"message\": \""@ + message + "\" }"@
}

/// The body of the response to each outcome.
pub open spec fn body_of(o: Outcome) -> Seq<char> {
    json_body(status_text(status_of(o)), message_of(o))
}

/// The status code of an outcome.
pub fn status(o: Outcome) -> (r: u16)
    ensures
        r == status_of(o),
{
    match o {
        Outcome::Invalid(ValidationError::InvalidAuthScheme) => 401,
        Outcome::Invalid(_) => 400,
        Outcome::NotFound => 404,
        Outcome::NotDeletable => 403,
        Outcome::NotOwner => 401,
        Outcome::Deleted => 200,
        Outcome::StoreFailure(_) => 502,
    }
}

fn status_digits(code: u16) -> (r: &'static str)
    ensures
        r@ == status_text(code),
{
    if code == 200 {
        "200"
    } else if code == 400 {
        "400"
    } else if code == 401 {
        "401"
    } else if code == 403 {
        "403"
    } else if code == 404 {
        "404"
    } else {
        "502"
    }
}

/// The message of an outcome.
pub fn message(o: Outcome) -> (r: &'static str)
    ensures
        r@ == message_of(o),
{
    match o {
        Outcome::Invalid(e) => match e {
            ValidationError::WrongMethod => "Wrong HTTP method!",
            ValidationError::MissingBody => "No body provided in request.",
            ValidationError::MalformedJson => "Body is not valid JSON!",
            ValidationError::MissingField => "Missing required body key [id]!",
            ValidationError::MissingHeader => "Missing required header [Authorization]!",
            ValidationError::InvalidAuthScheme => "Wrong authorization scheme",
        },
        Outcome::NotFound => "Snip not found!",
        Outcome::NotDeletable => "Paste is not deleteable!",
        Outcome::NotOwner => "Authorization token invalid!",
        Outcome::Deleted => "Snip deleted successfully!",
        Outcome::StoreFailure(_) => "Record store unavailable!",
    }
}

/// The response for an outcome of a delete request.
pub fn respond(o: Outcome) -> (r: Response)
    ensures
        r.status_code == status_of(o),
        r.json_content,
        r.body@ == body_of(o),
{
    let code = status(o);
    let mut body = String::from_str("{ \"statusCode\": ");
    body.append(status_digits(code));
    body.append(", \"message\": \"");
    body.append(message(o));
    body.append("\" }");
    Response { status_code: code, json_content: true, body }
}

/// The response of the open read endpoint: the store's reply, verbatim,
/// with status 200.
pub fn lookup_response(reply: String) -> (r: Response)
    ensures
        r.status_code == 200,
        !r.json_content,
        r.body@ == reply@,
{
    Response { status_code: 200, json_content: false, body: reply }
}

} // verus!
