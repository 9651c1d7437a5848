use snip_api::authorize::{authorize, decide, owner_record, AuthorizationDecision, StoreError};
use snip_api::request::{
    bearer_credential, credential, target_id, validate, AuthHeader, DeleteRequest, ValidationError,
};
use snip_api::response::{lookup_response, message, respond, status, Outcome, Response};
use snip_api::session::{after_delete, after_fetch, after_record, begin, Action};

fn request(method: &str, body: Option<&str>, auth: AuthHeader) -> DeleteRequest {
    DeleteRequest {
        http_method: method.to_string(),
        body: body.map(|b| b.to_string()),
        authorization: auth,
    }
}

fn bearer(token: &str) -> AuthHeader {
    AuthHeader::Text(format!("Bearer {}", token))
}

fn valid(token: &str) -> DeleteRequest {
    request("DELETE", Some(r#"{"id": "s1"}"#), bearer(token))
}

/// Runs a request to its end against a store reply for the read and a
/// result for the delete; returns the response and the number of deletes.
fn drive(req: &DeleteRequest, reply: Result<&str, StoreError>) -> (Response, usize, usize) {
    let mut fetches = 0;
    let mut deletes = 0;
    let outcome = match begin(req) {
        Action::Finish(o) => o,
        Action::FetchRecord(id) => {
            fetches += 1;
            match after_fetch(req, id, reply.map(|r| r.to_string())) {
                Action::Finish(o) => o,
                Action::DeleteRecord(_) => {
                    deletes += 1;
                    after_delete(Ok(()))
                }
                Action::FetchRecord(_) => panic!("a second read was asked for"),
            }
        }
        Action::DeleteRecord(_) => panic!("a delete before the read"),
    };
    (respond(outcome), fetches, deletes)
}

const OWNED_BY_U1: &str = r#"[{"id": "s1", "user_id": "U1", "content": "x"}]"#;

#[test]
fn wrong_method_is_rejected_without_store_calls() {
    for m in ["GET", "POST", "delete", ""] {
        let (resp, fetches, deletes) = drive(&request(m, Some(r#"{"id":"s1"}"#), bearer("U1")), Ok(OWNED_BY_U1));
        assert_eq!(resp.status_code, 400);
        assert_eq!(resp.body, r#"{ "statusCode": 400, "message": "Wrong HTTP method!" }"#);
        assert!(resp.json_content);
        assert_eq!((fetches, deletes), (0, 0));
    }
}

#[test]
fn missing_body_is_rejected_without_store_calls() {
    let (resp, fetches, deletes) = drive(&request("DELETE", None, bearer("U1")), Ok(OWNED_BY_U1));
    assert_eq!(resp.status_code, 400);
    assert_eq!(resp.body, r#"{ "statusCode": 400, "message": "No body provided in request." }"#);
    assert_eq!((fetches, deletes), (0, 0));
}

#[test]
fn body_without_id_is_rejected_without_store_calls() {
    for body in [r#"{}"#, r#"{"ID": "s1"}"#, r#"{"id": 7}"#, r#"{"id": null}"#, r#"["s1"]"#] {
        let (resp, fetches, deletes) = drive(&request("DELETE", Some(body), bearer("U1")), Ok(OWNED_BY_U1));
        assert_eq!(resp.status_code, 400);
        assert_eq!(resp.body, r#"{ "statusCode": 400, "message": "Missing required body key [id]!" }"#);
        assert_eq!((fetches, deletes), (0, 0));
    }
}

#[test]
fn malformed_json_body_is_rejected() {
    let req = request("DELETE", Some("{id: s1"), bearer("U1"));
    assert_eq!(target_id(&req), Err(ValidationError::MalformedJson));
    let (resp, fetches, _) = drive(&req, Ok(OWNED_BY_U1));
    assert_eq!(resp.status_code, 400);
    assert_eq!(resp.body, r#"{ "statusCode": 400, "message": "Body is not valid JSON!" }"#);
    assert_eq!(fetches, 0);
}

#[test]
fn missing_header_is_checked_after_the_read() {
    let req = request("DELETE", Some(r#"{"id": "s1"}"#), AuthHeader::Absent);
    let (resp, fetches, deletes) = drive(&req, Ok(OWNED_BY_U1));
    assert_eq!(resp.status_code, 400);
    assert_eq!(resp.body, r#"{ "statusCode": 400, "message": "Missing required header [Authorization]!" }"#);
    assert_eq!((fetches, deletes), (1, 0));
}

#[test]
fn wrong_scheme_gets_401_and_no_delete() {
    for auth in [
        AuthHeader::Text("U1".to_string()),
        AuthHeader::Text("Basic U1".to_string()),
        AuthHeader::Text("bearer U1".to_string()),
        AuthHeader::Text("BearerU1".to_string()),
        AuthHeader::Text("xBearer U1".to_string()),
        AuthHeader::Undecodable,
    ] {
        let req = request("DELETE", Some(r#"{"id": "s1"}"#), auth);
        let (resp, _, deletes) = drive(&req, Ok(OWNED_BY_U1));
        assert_eq!(resp.status_code, 401);
        assert_eq!(resp.body, r#"{ "statusCode": 401, "message": "Wrong authorization scheme" }"#);
        assert_eq!(deletes, 0);
    }
}

#[test]
fn ownerless_snip_is_not_deletable() {
    for reply in [r#"[{"id": "s1"}]"#, r#"[{"id": "s1", "user_id": ""}]"#, r#"[{"id": "s1", "user_id": null}]"#, r#"[{"id": "s1", "user_id": 5}]"#] {
        for token in ["U1", "", "anything"] {
            let (resp, fetches, deletes) = drive(&valid(token), Ok(reply));
            assert_eq!(resp.status_code, 403);
            assert_eq!(resp.body, r#"{ "statusCode": 403, "message": "Paste is not deleteable!" }"#);
            assert_eq!((fetches, deletes), (1, 0));
        }
    }
}

#[test]
fn owner_deletes_once() {
    let (resp, fetches, deletes) = drive(&valid("U1"), Ok(OWNED_BY_U1));
    assert_eq!(resp.status_code, 200);
    assert_eq!(resp.body, r#"{ "statusCode": 200, "message": "Snip deleted successfully!" }"#);
    assert_eq!((fetches, deletes), (1, 1));
}

#[test]
fn other_credential_is_denied() {
    for token in ["U2", "u1", "U1 ", " U1", ""] {
        let (resp, _, deletes) = drive(&valid(token), Ok(OWNED_BY_U1));
        assert_eq!(resp.status_code, 401);
        assert_eq!(resp.body, r#"{ "statusCode": 401, "message": "Authorization token invalid!" }"#);
        assert_eq!(deletes, 0);
    }
}

#[test]
fn repeated_delete_finds_nothing_the_second_time() {
    let req = valid("U1");
    let (first, _, d1) = drive(&req, Ok(OWNED_BY_U1));
    assert_eq!((first.status_code, d1), (200, 1));
    let (second, f2, d2) = drive(&req, Ok("[]"));
    assert_eq!(second.status_code, 404);
    assert_eq!(second.body, r#"{ "statusCode": 404, "message": "Snip not found!" }"#);
    assert_eq!((f2, d2), (1, 0));
}

#[test]
fn store_failures_map_to_502() {
    let req = valid("U1");
    let (resp, _, deletes) = drive(&req, Err(StoreError::Unavailable));
    assert_eq!(resp.status_code, 502);
    assert_eq!(resp.body, r#"{ "statusCode": 502, "message": "Record store unavailable!" }"#);
    assert_eq!(deletes, 0);
    let (resp, _, deletes) = drive(&req, Ok("<html>bad gateway</html>"));
    assert_eq!(resp.status_code, 502);
    assert_eq!(deletes, 0);
    assert_eq!(after_delete(Err(StoreError::Unavailable)), Outcome::StoreFailure(StoreError::Unavailable));
    assert_eq!(after_delete(Ok(())), Outcome::Deleted);
}

#[test]
fn bearer_extraction_is_exact() {
    assert_eq!(bearer_credential("Bearer abc123"), Some("abc123".to_string()));
    assert_eq!(bearer_credential("Bearer "), Some(String::new()));
    assert_eq!(bearer_credential("Bearer  x "), Some(" x ".to_string()));
    assert_eq!(bearer_credential("Bearer ü€"), Some("ü€".to_string()));
    assert_eq!(bearer_credential("Bearer"), None);
    assert_eq!(bearer_credential(""), None);
    assert_eq!(bearer_credential("Token abc123"), None);
}

#[test]
fn credential_and_target_are_read() {
    assert_eq!(credential(&bearer("abc123")), Ok("abc123".to_string()));
    assert_eq!(credential(&AuthHeader::Absent), Err(ValidationError::MissingHeader));
    assert_eq!(credential(&AuthHeader::Undecodable), Err(ValidationError::InvalidAuthScheme));
    let req = request("DELETE", Some(r#"{"id": "snip-42", "other": 1}"#), bearer("U9"));
    assert_eq!(target_id(&req), Ok("snip-42".to_string()));
    assert_eq!(validate(&req), Ok(("snip-42".to_string(), "U9".to_string())));
    let no_auth = request("DELETE", Some(r#"{"id": "snip-42"}"#), AuthHeader::Absent);
    assert_eq!(validate(&no_auth), Err(ValidationError::MissingHeader));
    let both_bad = request("PUT", None, AuthHeader::Absent);
    assert_eq!(validate(&both_bad), Err(ValidationError::WrongMethod));
}

#[test]
fn store_reply_is_read() {
    assert_eq!(owner_record(OWNED_BY_U1), Ok(Some(Some("U1".to_string()))));
    assert_eq!(owner_record(r#"[{"id": "s1"}]"#), Ok(Some(None)));
    assert_eq!(owner_record("[]"), Ok(None));
    assert_eq!(owner_record(r#"{"user_id": "U1"}"#), Ok(None));
    assert_eq!(owner_record(r#"[{"user_id": "A"}, {"user_id": "B"}]"#), Ok(Some(Some("A".to_string()))));
    assert_eq!(owner_record("not json"), Err(StoreError::MalformedReply));
}

#[test]
fn decisions_follow_the_ownership_rule() {
    assert_eq!(decide(&None, "U1"), AuthorizationDecision::NotFound);
    assert_eq!(decide(&Some(None), "U1"), AuthorizationDecision::DeniedNoOwner);
    assert_eq!(decide(&Some(Some(String::new())), ""), AuthorizationDecision::DeniedNoOwner);
    assert_eq!(decide(&Some(Some("U1".to_string())), "U1"), AuthorizationDecision::Allowed);
    assert_eq!(decide(&Some(Some("U1".to_string())), "U2"), AuthorizationDecision::DeniedNotOwner);
    assert_eq!(authorize(OWNED_BY_U1, "U1"), Ok(AuthorizationDecision::Allowed));
    assert_eq!(authorize("[]", "U1"), Ok(AuthorizationDecision::NotFound));
    assert_eq!(authorize("{", "U1"), Err(StoreError::MalformedReply));
}

#[test]
fn record_step_asks_for_the_delete_of_the_target() {
    let req = valid("U1");
    let rec = Some(Some("U1".to_string()));
    assert_eq!(after_record(&req, "s1".to_string(), &rec), Action::DeleteRecord("s1".to_string()));
    assert_eq!(after_record(&req, "s1".to_string(), &None), Action::Finish(Outcome::NotFound));
    assert_eq!(begin(&req), Action::FetchRecord("s1".to_string()));
}

#[test]
fn status_and_message_table() {
    assert_eq!(status(Outcome::Invalid(ValidationError::InvalidAuthScheme)), 401);
    assert_eq!(status(Outcome::Invalid(ValidationError::MissingHeader)), 400);
    assert_eq!(status(Outcome::NotDeletable), 403);
    assert_eq!(status(Outcome::NotOwner), 401);
    assert_eq!(status(Outcome::StoreFailure(StoreError::MalformedReply)), 502);
    assert_eq!(message(Outcome::NotOwner), "Authorization token invalid!");
    assert_eq!(message(Outcome::Invalid(ValidationError::MissingBody)), "No body provided in request.");
}

#[test]
fn lookup_passes_the_reply_through() {
    let reply = r#"[{"id": "s1", "content": "hello"}]"#.to_string();
    assert_eq!(
        lookup_response(reply.clone()),
        Response { status_code: 200, json_content: false, body: reply }
    );
}
