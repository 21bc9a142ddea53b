//! Signing in with email and password.

use vstd::prelude::*;
use crate::db::Db;
use crate::endpoint_error::{EndpointError, EndpointResult};
use crate::endpoints::auth::{
    authenticate_by_email_password, law_issued_token_authenticates, password_verdict,
    token_verdict, AuthenticationError, Verdict,
};
use crate::models::token::Token;

verus! {

/// What a client sends to sign in.
#[derive(Debug, PartialEq)]
pub struct BasicLoginParams {
    pub email: String,
    pub password: String,
}

/// Signs a user in: resolves the claim of email and password and, where it
/// is granted, issues a token to the user and stores it in `db`. A claim
/// that is not granted gives the error of its verdict, and `db` stays as it
/// is. A granted claim gives what issuing the token comes to: the token, or
/// the database error that says why there is none. The value of the token
/// that comes back is not empty and authenticates its bearer as the user
/// that signed in.
pub fn login(db: &mut Db, login_params: BasicLoginParams, secret: &[u8]) -> (r: EndpointResult<
    Token,
>)
    ensures
        match password_verdict(old(db)@, login_params.email@, login_params.password@) {
            Verdict::Granted(user) => match r {
                Ok(token) => {
                    &&& user.issue(secret@, old(db)@, final(db)@, Ok(token@))
                    &&& token.user_id == user.id
                    &&& token.value@.len() > 0
                    &&& token_verdict(final(db)@, token.value@, secret@) matches Verdict::Granted(
                        owner,
                    ) && owner.id == user.id
                },
                Err(EndpointError::Db(e)) => user.issue(secret@, old(db)@, final(db)@, Err(e)),
                Err(_) => false,
            },
            Verdict::Unauthorized => r matches Err(
                EndpointError::Auth(AuthenticationError::Unauthorized),
            ) && final(db)@ == old(db)@,
            Verdict::EncryptionFault => r matches Err(
                EndpointError::Auth(AuthenticationError::Encryption(_)),
            ) && final(db)@ == old(db)@,
        },
        old(db)@.wf() ==> final(db)@.wf(),
{
    let mut user = match authenticate_by_email_password(
        db,
        login_params.email.as_str(),
        login_params.password.as_str(),
    ) {
        Ok(user) => user,
        Err(err) => {
            return Err(err);
        },
    };
    let ghost before = db@;
    match user.generate_token(db, secret) {
        Ok(token) => {
            proof {
                law_issued_token_authenticates(user@, token@, secret@, before, db@);
            }
            Ok(token)
        },
        Err(err) => Err(EndpointError::Db(err)),
    }
}

} // verus!
