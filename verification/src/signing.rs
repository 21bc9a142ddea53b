//! Signed bearer-token values.

use vstd::prelude::*;
use hmac::{Hmac, Mac};
use jwt::{Header, RegisteredClaims, SignWithKey, Token, Verified, VerifyWithKey};
use sha2::Sha256;

verus! {

/// Why jwt failed. Nothing is read from it.
#[verifier::external_type_specification]
#[verifier::external_body]
pub struct ExJwtError(jwt::Error);

/// The value of the token with the id `id` that names `subject`, signed
/// with `secret`: a JSON Web Token with the claims `sub`, the subject, and
/// `jti`, the id in decimal, and an HMAC-SHA256 signature. `None` where no
/// token can be made.
pub uninterp spec fn signed_value(subject: Seq<char>, id: i32, secret: Seq<u8>) -> Option<
    Seq<char>,
>;

/// Whether `value` is a JSON Web Token whose HMAC-SHA256 signature was made
/// with `secret`.
pub uninterp spec fn signature_holds(value: Seq<char>, secret: Seq<u8>) -> bool;

/// Calls `sign_with_key` of jwt on a token with the default header and the
/// claims `sub` and `jti`, with an HMAC-SHA256 key made from `secret`. The
/// contract names what it returns, a function of subject, id and secret
/// alone. It says that the value passes `verify_with_key` under the same
/// secret, and that it is not empty: it is three parts with dots between
/// them.
#[verifier::external_body]
pub(crate) fn sign_subject(subject: &str, id: i32, secret: &[u8]) -> (r: Result<String, jwt::Error>)
    ensures
        r is Ok <==> signed_value(subject@, id, secret@) is Some,
        r matches Ok(value) ==> signed_value(subject@, id, secret@) == Some(value@),
        r matches Ok(value) ==> signature_holds(value@, secret@),
        r matches Ok(value) ==> value@.len() > 0,
{
    let key: Hmac<Sha256> = Hmac::new_from_slice(secret)?;
    let claims = RegisteredClaims {
        subject: Some(subject.to_owned()),
        json_web_token_id: Some(id.to_string()),
        ..Default::default()
    };
    let token = Token::new(Header::default(), claims).sign_with_key(&key)?;
    Ok(token.as_str().to_owned())
}

/// Calls `verify_with_key` of jwt on `value`, with an HMAC-SHA256 key made
/// from `secret`. The contract names what it returns: whether the value
/// parses as a token and its signature verifies.
#[verifier::external_body]
pub(crate) fn verify_value(value: &str, secret: &[u8]) -> (r: bool)
    ensures
        r == signature_holds(value@, secret@),
{
    let key: Result<Hmac<Sha256>, _> = Hmac::new_from_slice(secret);
    match key {
        Ok(key) => {
            let token: Result<Token<Header, RegisteredClaims, Verified>, jwt::Error> =
                value.verify_with_key(&key);
            token.is_ok()
        },
        Err(_) => false,
    }
}

} // verus!
