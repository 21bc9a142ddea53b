//! The one error type of the endpoints, and the response each error is
//! answered with.

use vstd::prelude::*;
use vstd::string::*;
use crate::db::{DbError, QueryError};
use crate::endpoints::auth::AuthenticationError;
use crate::endpoints::helpers::{
    empty_response_with_status, internal_error_body, ise_json_response, not_authorized_body,
    not_authorized_json_response, not_found_body, not_found_json_response,
};
use crate::http::{Response, ResponseView, Status};

verus! {

pub type EndpointResult<T> = Result<T, EndpointError>;

/// Why an endpoint could not do what the request asked for.
#[derive(Debug)]
pub enum EndpointError {
    /// The database failed, or holds no such row.
    Db(DbError),
    /// The request is not authenticated.
    Auth(AuthenticationError),
    /// The request is malformed.
    BadRequest,
}

/// The response that answers `err`: 404 for a row that does not exist, 401
/// for a claim that matches no user, 400 for a malformed request, and 500
/// for every fault of the server, whose cause the body does not tell.
pub open spec fn response_of(err: EndpointError) -> ResponseView {
    match err {
        EndpointError::Db(DbError::Db(QueryError::NotFound)) => ResponseView {
            status: Status::NotFound,
            body: Some(not_found_body()),
        },
        EndpointError::Auth(AuthenticationError::Unauthorized) => ResponseView {
            status: Status::Unauthorized,
            body: Some(not_authorized_body()),
        },
        EndpointError::BadRequest => ResponseView { status: Status::BadRequest, body: None },
        _ => ResponseView { status: Status::InternalServerError, body: Some(internal_error_body()) },
    }
}

impl EndpointError {
    /// The message shown for this error: the layer that failed, then that
    /// layer's own message.
    pub fn to_string(&self) -> (r: String)
        ensures
            match *self {
                EndpointError::Db(DbError::Db(_)) => r@ == "Db error "@ + "Db error"@,
                EndpointError::Db(DbError::PoolInitialization(_)) => r@ == "Db error "@
                    + "Db pool could not be initialized"@,
                EndpointError::Db(DbError::PoolTimeout(_)) => r@ == "Db error "@
                    + "Timeout while trying to access the Db Pool"@,
                EndpointError::Auth(AuthenticationError::Unauthorized) => r@
                    == "Authentication error "@ + "could not authenticate the user"@,
                EndpointError::Auth(AuthenticationError::Encryption(_)) => (
                "Authentication error "@
                    + "there was a problem encrypting/decrypting data "@).is_prefix_of(r@),
                EndpointError::BadRequest => r@ == "Bad request"@,
            },
    {
        match self {
            EndpointError::Db(err) => {
                let detail = err.to_string();
                "Db error ".to_owned().concat(detail.as_str())
            },
            EndpointError::Auth(err) => {
                let detail = err.to_string();
                "Authentication error ".to_owned().concat(detail.as_str())
            },
            EndpointError::BadRequest => "Bad request".to_owned(),
        }
    }

    /// The kind of the error, or the detail it carries.
    pub fn description(&self) -> (r: String)
        ensures
            r@ == match *self {
                EndpointError::Db(DbError::Db(QueryError::NotFound)) => "Record not found"@,
                EndpointError::Db(DbError::Db(QueryError::UniqueViolation)) =>
                    "Unique constraint violated"@,
                EndpointError::Db(DbError::Db(QueryError::ForeignKeyViolation)) =>
                    "Foreign key constraint violated"@,
                EndpointError::Db(DbError::Db(QueryError::Other(detail))) => detail@,
                EndpointError::Db(DbError::PoolInitialization(detail)) => detail@,
                EndpointError::Db(DbError::PoolTimeout(detail)) => detail@,
                EndpointError::Auth(AuthenticationError::Unauthorized) => "Unauthorized"@,
                EndpointError::Auth(AuthenticationError::Encryption(_)) => "Encryption"@,
                EndpointError::BadRequest => "Bad request"@,
            },
    {
        match self {
            EndpointError::Db(err) => err.description(),
            EndpointError::Auth(err) => err.description().to_owned(),
            EndpointError::BadRequest => "Bad request".to_owned(),
        }
    }

    /// Whether the error is a fault of the server, to be logged before it is
    /// answered.
    pub fn is_server_fault(&self) -> (r: bool)
        ensures
            r == (response_of(*self).status == Status::InternalServerError),
    {
        match self {
            EndpointError::Db(DbError::Db(QueryError::NotFound)) => false,
            EndpointError::Auth(AuthenticationError::Unauthorized) => false,
            EndpointError::BadRequest => false,
            _ => true,
        }
    }

    /// The response that answers this error.
    pub fn respond(self) -> (r: Response)
        ensures
            r@ == response_of(self),
    {
        match self {
            EndpointError::Db(DbError::Db(QueryError::NotFound)) => not_found_json_response(),
            EndpointError::Auth(AuthenticationError::Unauthorized) => not_authorized_json_response(),
            EndpointError::BadRequest => empty_response_with_status(Status::BadRequest),
            _ => ise_json_response(),
        }
    }
}

impl From<DbError> for EndpointError {
    fn from(err: DbError) -> (r: EndpointError)
        ensures
            r == EndpointError::Db(err),
    {
        EndpointError::Db(err)
    }
}

impl vstd::std_specs::convert::FromSpecImpl<DbError> for EndpointError {
    open spec fn obeys_from_spec() -> bool {
        true
    }

    open spec fn from_spec(err: DbError) -> EndpointError {
        EndpointError::Db(err)
    }
}

impl From<QueryError> for EndpointError {
    fn from(err: QueryError) -> (r: EndpointError)
        ensures
            r == EndpointError::Db(DbError::Db(err)),
    {
        EndpointError::Db(DbError::Db(err))
    }
}

impl vstd::std_specs::convert::FromSpecImpl<QueryError> for EndpointError {
    open spec fn obeys_from_spec() -> bool {
        true
    }

    open spec fn from_spec(err: QueryError) -> EndpointError {
        EndpointError::Db(DbError::Db(err))
    }
}

impl From<AuthenticationError> for EndpointError {
    fn from(err: AuthenticationError) -> (r: EndpointError)
        ensures
            r == EndpointError::Auth(err),
    {
        EndpointError::Auth(err)
    }
}

impl vstd::std_specs::convert::FromSpecImpl<AuthenticationError> for EndpointError {
    open spec fn obeys_from_spec() -> bool {
        true
    }

    open spec fn from_spec(err: AuthenticationError) -> EndpointError {
        EndpointError::Auth(err)
    }
}

/// A row that does not exist is answered with 404 and the body
/// `{"status":"not_found"}`, a failed authentication with 401 and the body
/// `{"status":"not_authorized"}`: the two never share a status or a body.
pub proof fn law_not_found_is_not_unauthorized()
    ensures
        response_of(EndpointError::Db(DbError::Db(QueryError::NotFound))) == (ResponseView {
            status: Status::NotFound,
            body: Some(not_found_body()),
        }),
        response_of(EndpointError::Auth(AuthenticationError::Unauthorized)) == (ResponseView {
            status: Status::Unauthorized,
            body: Some(not_authorized_body()),
        }),
        Status::NotFound.spec_code() == 404,
        Status::Unauthorized.spec_code() == 401,
        not_found_body() != not_authorized_body(),
{
    reveal_strlit("{\"status\":\"not_found\"}");
    reveal_strlit("{\"status\":\"not_authorized\"}");
    assert(not_authorized_body().len() == 27);
}

/// Whatever fails, the body of the answer is one of three fixed texts or
/// absent: no detail of an error reaches the client.
pub proof fn law_no_detail_in_body(err: EndpointError)
    ensures
        response_of(err).body is None || response_of(err).body == Some(not_found_body())
            || response_of(err).body == Some(not_authorized_body()) || response_of(err).body
            == Some(internal_error_body()),
{
}

} // verus!
