//! Builders for the responses that every endpoint answers with.

use vstd::prelude::*;
use crate::http::{Response, ResponseView, Status};

verus! {

/// The JSON object with the one key `status` and `status` under it. The
/// text is written as it stands: it holds no character that JSON escapes.
pub open spec fn status_body(status: Seq<char>) -> Seq<char> {
    "{\"status\":\""@ + status + "\"}"@
}

/// The body that tells a client that a resource does not exist.
pub open spec fn not_found_body() -> Seq<char> {
    "{\"status\":\"not_found\"}"@
}

/// The body that tells a client that it is not authenticated.
pub open spec fn not_authorized_body() -> Seq<char> {
    "{\"status\":\"not_authorized\"}"@
}

/// The body that tells a client that the server failed. It names no cause.
pub open spec fn internal_error_body() -> Seq<char> {
    "{\"status\":\"an internal error has occured\"}"@
}

/// A response with a status and no body.
pub fn empty_response_with_status(status: Status) -> (r: Response)
    ensures
        r@ == (ResponseView { status: status, body: None }),
{
    Response { status: status, body: None }
}

/// A response with a status and `json`, a JSON text, as its body.
pub fn json_response_with_status(status: Status, json: String) -> (r: Response)
    ensures
        r@ == (ResponseView { status: status, body: Some(json@) }),
{
    Response { status: status, body: Some(json) }
}

/// 404 with the body `{"status":"not_found"}`.
pub fn not_found_json_response() -> (r: Response)
    ensures
        r@ == (ResponseView { status: Status::NotFound, body: Some(not_found_body()) }),
{
    json_response_with_status(Status::NotFound, "{\"status\":\"not_found\"}".to_owned())
}

/// 401 with the body `{"status":"not_authorized"}`.
pub fn not_authorized_json_response() -> (r: Response)
    ensures
        r@ == (ResponseView {
            status: Status::Unauthorized,
            body: Some(not_authorized_body()),
        }),
{
    json_response_with_status(Status::Unauthorized, "{\"status\":\"not_authorized\"}".to_owned())
}

/// 500 with the body `{"status":"an internal error has occured"}`.
pub fn ise_json_response() -> (r: Response)
    ensures
        r@ == (ResponseView {
            status: Status::InternalServerError,
            body: Some(internal_error_body()),
        }),
{
    json_response_with_status(
        Status::InternalServerError,
        "{\"status\":\"an internal error has occured\"}".to_owned(),
    )
}

/// 200 with `json`, a JSON text, as its body.
pub fn ok_json_response(json: String) -> (r: Response)
    ensures
        r@ == (ResponseView { status: Status::Success, body: Some(json@) }),
{
    json_response_with_status(Status::Success, json)
}

/// The three bodies that tell of a failure are JSON objects of one shape:
/// the key `status`, and a word for the failure under it.
pub proof fn law_failure_bodies_have_one_shape()
    ensures
        not_found_body() == status_body("not_found"@),
        not_authorized_body() == status_body("not_authorized"@),
        internal_error_body() == status_body("an internal error has occured"@),
{
    reveal_strlit("{\"status\":\"");
    reveal_strlit("\"}");
    reveal_strlit("not_found");
    reveal_strlit("not_authorized");
    reveal_strlit("an internal error has occured");
    reveal_strlit("{\"status\":\"not_found\"}");
    reveal_strlit("{\"status\":\"not_authorized\"}");
    reveal_strlit("{\"status\":\"an internal error has occured\"}");
    assert(not_found_body() =~= status_body("not_found"@));
    assert(not_authorized_body() =~= status_body("not_authorized"@));
    assert(internal_error_body() =~= status_body("an internal error has occured"@));
}

} // verus!
