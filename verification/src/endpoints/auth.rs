//! Credential claims: how a request states them and how they are resolved
//! to a user.

use vstd::prelude::*;
use vstd::string::*;
use vstd::utf8::{decode_utf8, valid_utf8};
use crate::codec::{base64_decoding, decode_standard, string_from_utf8};
use crate::db::{token_with_value, user_with_email, user_with_id, Db, DbError, DbView, QueryError};
use crate::endpoint_error::{EndpointError, EndpointResult};
use crate::models::token::TokenView;
use crate::models::user::{AuthenticatedUser, User, UserView};
use crate::password::{bcrypt_error_text, password_check, verify_password};
use crate::search::{first_where, lemma_first_where, lemma_first_where_is, lemma_first_where_none};
use crate::signing::{signature_holds, verify_value};
use crate::text::{
    chars_of, is_whitespace, lemma_words_of_pair, same_text, split_whitespace, views, words,
};

pub mod basic;

verus! {

/// Why a claim did not resolve to a user.
#[derive(Debug)]
pub enum AuthenticationError {
    /// The claim matches no user: an unknown user, a wrong password, an
    /// unknown or forged token.
    Unauthorized,
    /// Password verification itself failed.
    Encryption(bcrypt::BcryptError),
}

impl AuthenticationError {
    /// The message shown for this error. For an encryption error it ends
    /// with the text of the hashing error.
    pub fn to_string(&self) -> (r: String)
        ensures
            match *self {
                AuthenticationError::Unauthorized => r@ == "could not authenticate the user"@,
                AuthenticationError::Encryption(_) =>
                    "there was a problem encrypting/decrypting data "@.is_prefix_of(r@),
            },
    {
        match self {
            AuthenticationError::Unauthorized => "could not authenticate the user".to_owned(),
            AuthenticationError::Encryption(err) => {
                let detail = bcrypt_error_text(err);
                "there was a problem encrypting/decrypting data ".to_owned().concat(
                    detail.as_str(),
                )
            },
        }
    }

    /// The kind of the error, in one word.
    pub fn description(&self) -> (r: &'static str)
        ensures
            r@ == match *self {
                AuthenticationError::Unauthorized => "Unauthorized"@,
                AuthenticationError::Encryption(_) => "Encryption"@,
            },
    {
        match self {
            AuthenticationError::Unauthorized => "Unauthorized",
            AuthenticationError::Encryption(_) => "Encryption",
        }
    }
}

/// A claim of user and password.
#[derive(Debug, PartialEq)]
pub struct BasicAuth {
    pub user: String,
    pub password: String,
}

/// A claim of a bearer token.
#[derive(Debug, PartialEq)]
pub struct TokenAuth {
    pub token: String,
}

/// What a request claims to be authenticated by.
#[derive(Debug, PartialEq)]
pub enum Authentication {
    Basic(BasicAuth),
    Token(TokenAuth),
}

/// Why the payload of a `Basic` header is no claim; the text says which
/// step failed.
#[derive(Debug, PartialEq)]
pub struct ParseBasicAuthenticationError(pub String);

/// A claim of user and password over their characters.
pub struct BasicAuthView {
    pub user: Seq<char>,
    pub password: Seq<char>,
}

/// A claim over its characters.
pub enum AuthenticationView {
    Basic(BasicAuthView),
    Token(Seq<char>),
}

impl View for BasicAuth {
    type V = BasicAuthView;

    open spec fn view(&self) -> BasicAuthView {
        BasicAuthView { user: self.user@, password: self.password@ }
    }
}

impl View for TokenAuth {
    type V = Seq<char>;

    open spec fn view(&self) -> Seq<char> {
        self.token@
    }
}

impl View for Authentication {
    type V = AuthenticationView;

    open spec fn view(&self) -> AuthenticationView {
        match *self {
            Authentication::Basic(basic) => AuthenticationView::Basic(basic@),
            Authentication::Token(token) => AuthenticationView::Token(token@),
        }
    }
}

impl View for ParseBasicAuthenticationError {
    type V = Seq<char>;

    open spec fn view(&self) -> Seq<char> {
        self.0@
    }
}

/// The user and the password that `text` spells as `user:password`: what
/// stands before the first colon and what stands after it, further colons
/// included. A text without a colon spells none.
pub open spec fn credentials(text: Seq<char>) -> Option<BasicAuthView> {
    match first_where(text, |c: char| c == ':') {
        Some(i) => Some(BasicAuthView { user: text.take(i), password: text.skip(i + 1) }),
        None => None,
    }
}

/// The claim that decoded payload bytes spell, or the reason they spell
/// none: they are no UTF-8, or the text holds no colon.
pub open spec fn decoded_claim(bytes: Seq<u8>) -> Result<BasicAuthView, Seq<char>> {
    if !valid_utf8(bytes) {
        Err("utf8 error buing basic auth string"@)
    } else {
        match credentials(decode_utf8(bytes)) {
            Some(claim) => Ok(claim),
            None => Err("missing user or password"@),
        }
    }
}

/// The claim that the payload of a `Basic` header spells, or the reason it
/// spells none.
pub open spec fn basic_claim(payload: Seq<char>) -> Result<BasicAuthView, Seq<char>> {
    match base64_decoding(payload) {
        Some(bytes) => decoded_claim(bytes),
        None => Err("error decoding base64"@),
    }
}

/// The claim that an `Authorization` header states: the header is a scheme
/// and a payload with whitespace between them, and the scheme is `Basic` or
/// `Bearer`. A request without the header, or with any other, states none.
pub open spec fn claim(header: Option<Seq<char>>) -> Option<AuthenticationView> {
    match header {
        None => None,
        Some(h) => {
            let parts = words(h);
            if parts.len() != 2 {
                None
            } else if parts[0] == "Basic"@ {
                match basic_claim(parts[1]) {
                    Ok(basic) => Some(AuthenticationView::Basic(basic)),
                    Err(_) => None,
                }
            } else if parts[0] == "Bearer"@ {
                Some(AuthenticationView::Token(parts[1]))
            } else {
                None
            }
        },
    }
}

impl BasicAuth {
    /// Splits `user:password` at its first colon.
    pub fn from_credentials(text: &str) -> (r: Option<BasicAuth>)
        ensures
            match credentials(text@) {
                Some(claim) => r matches Some(basic) && basic@ == claim,
                None => r is None,
            },
    {
        let chars = chars_of(text);
        let n = chars.len();
        let ghost is_colon = |c: char| c == ':';
        let mut i: usize = 0;
        while i < n && chars[i] != ':'
            invariant
                chars@ == text@,
                n == chars.len(),
                i <= n,
                is_colon == (|c: char| c == ':'),
                forall|j: int| 0 <= j < i ==> !is_colon(#[trigger] text@[j]),
            decreases n - i,
        {
            i += 1;
        }
        if i == n {
            proof {
                lemma_first_where_none(text@, is_colon);
            }
            return None;
        }
        proof {
            lemma_first_where_is(text@, is_colon, i as int);
        }
        Some(
            BasicAuth {
                user: text.substring_char(0, i).to_owned(),
                password: text.substring_char(i + 1, n).to_owned(),
            },
        )
    }

    /// Reads a claim from the bytes that the payload of a `Basic` header
    /// decodes to: UTF-8 text of the form `user:password`.
    pub fn from_decoded(bytes: Vec<u8>) -> (r: Result<BasicAuth, ParseBasicAuthenticationError>)
        ensures
            match decoded_claim(bytes@) {
                Ok(claim) => r matches Ok(basic) && basic@ == claim,
                Err(reason) => r matches Err(e) && e@ == reason,
            },
    {
        let auth_decoded = match string_from_utf8(bytes) {
            Ok(auth_decoded) => auth_decoded,
            Err(_) => {
                return Err(
                    ParseBasicAuthenticationError("utf8 error buing basic auth string".to_owned()),
                );
            },
        };
        match BasicAuth::from_credentials(auth_decoded.as_str()) {
            Some(basic) => Ok(basic),
            None => Err(ParseBasicAuthenticationError("missing user or password".to_owned())),
        }
    }

    /// Reads a claim from the payload of a `Basic` header: the standard
    /// base64 encoding of `user:password`.
    pub fn from_str(s: &str) -> (r: Result<BasicAuth, ParseBasicAuthenticationError>)
        ensures
            match basic_claim(s@) {
                Ok(claim) => r matches Ok(basic) && basic@ == claim,
                Err(reason) => r matches Err(e) && e@ == reason,
            },
    {
        match decode_standard(s) {
            Ok(auth_vec_bytes) => BasicAuth::from_decoded(auth_vec_bytes),
            Err(_) => Err(ParseBasicAuthenticationError("error decoding base64".to_owned())),
        }
    }
}

impl Authentication {
    /// Reads the claim of a request from its `Authorization` header, `None`
    /// standing for a request without one. Every header that states no
    /// claim is a bad request; no table is looked at.
    pub fn from_request(header: Option<&str>) -> (r: EndpointResult<Authentication>)
        ensures
            match claim(
                match header {
                    Some(h) => Some(h@),
                    None => None,
                },
            ) {
                Some(stated) => r matches Ok(authentication) && authentication@ == stated,
                None => r matches Err(EndpointError::BadRequest),
            },
            !(header matches Some(h) && words(h@).len() == 2) ==> r matches Err(
                EndpointError::BadRequest,
            ),
    {
        let auth_header = match header {
            Some(auth_header) => auth_header,
            None => {
                return Err(EndpointError::BadRequest);
            },
        };
        let mut auth_header_parts = split_whitespace(auth_header);
        if auth_header_parts.len() != 2 {
            return Err(EndpointError::BadRequest);
        }
        if same_text(auth_header_parts[0].as_str(), "Basic") {
            match BasicAuth::from_str(auth_header_parts[1].as_str()) {
                Ok(basic_auth) => Ok(Authentication::Basic(basic_auth)),
                Err(_) => Err(EndpointError::BadRequest),
            }
        } else if same_text(auth_header_parts[0].as_str(), "Bearer") {
            let token = auth_header_parts.pop().unwrap();
            Ok(Authentication::Token(TokenAuth { token: token }))
        } else {
            Err(EndpointError::BadRequest)
        }
    }
}

/// What resolving a claim comes to.
pub enum Verdict {
    /// The claim is that of this user.
    Granted(UserView),
    /// The claim matches no user.
    Unauthorized,
    /// Password verification itself failed.
    EncryptionFault,
}

/// What a claim of email and password comes to. The claimed user is looked
/// up by email, and by email alone. The claim is granted to the user with
/// that email where the password matches the user's digest. An unknown
/// email, a user without a password and a wrong password all come to the
/// same `Unauthorized`; a digest that cannot be checked is a fault.
pub open spec fn password_verdict(db: DbView, email: Seq<char>, password: Seq<char>) -> Verdict {
    match user_with_email(db.users, email) {
        None => Verdict::Unauthorized,
        Some(user) => match user.hashed_password {
            None => Verdict::Unauthorized,
            Some(digest) => match password_check(password, digest) {
                Some(true) => Verdict::Granted(user),
                Some(false) => Verdict::Unauthorized,
                None => Verdict::EncryptionFault,
            },
        },
    }
}

/// What a claim of a bearer token comes to. It is granted to the owner of
/// the stored token with exactly that value, where the value's signature
/// holds under `secret`. A forged value, an unknown value and a token whose
/// owner is gone all come to the same `Unauthorized`.
pub open spec fn token_verdict(db: DbView, value: Seq<char>, secret: Seq<u8>) -> Verdict {
    if !signature_holds(value, secret) {
        Verdict::Unauthorized
    } else {
        match db.user_with_token(value) {
            Some(user) => Verdict::Granted(user),
            None => Verdict::Unauthorized,
        }
    }
}

/// What a claim comes to.
pub open spec fn verdict(db: DbView, claim: AuthenticationView, secret: Seq<u8>) -> Verdict {
    match claim {
        AuthenticationView::Basic(basic) => password_verdict(db, basic.user, basic.password),
        AuthenticationView::Token(value) => token_verdict(db, value, secret),
    }
}

/// Whether `r` is the result that `verdict` calls for: the user that the
/// claim was granted to, or the error of the verdict's kind.
pub open spec fn delivers(r: EndpointResult<User>, verdict: Verdict) -> bool {
    match verdict {
        Verdict::Granted(user) => r matches Ok(u) && u@ == user,
        Verdict::Unauthorized => r matches Err(
            EndpointError::Auth(AuthenticationError::Unauthorized),
        ),
        Verdict::EncryptionFault => r matches Err(
            EndpointError::Auth(AuthenticationError::Encryption(_)),
        ),
    }
}

/// Whether `r` is the result that `verdict` calls for, the user cut down to
/// what the endpoints get to know.
pub open spec fn delivers_identity(r: EndpointResult<AuthenticatedUser>, verdict: Verdict) -> bool {
    match verdict {
        Verdict::Granted(user) => r matches Ok(u) && u@ == user.identity(),
        Verdict::Unauthorized => r matches Err(
            EndpointError::Auth(AuthenticationError::Unauthorized),
        ),
        Verdict::EncryptionFault => r matches Err(
            EndpointError::Auth(AuthenticationError::Encryption(_)),
        ),
    }
}

/// Which rows resolving a claim reads.
#[derive(Debug, PartialEq)]
pub enum Lookup {
    /// The user with this email.
    UserByEmail(String),
    /// The token with this value, and its owner.
    UserByToken(String),
    /// No row: the claim is refused whatever is stored.
    Nothing,
}

/// Which rows resolving a claim reads, over the characters of the key.
pub enum LookupView {
    UserByEmail(Seq<char>),
    UserByToken(Seq<char>),
    Nothing,
}

impl View for Lookup {
    type V = LookupView;

    open spec fn view(&self) -> LookupView {
        match *self {
            Lookup::UserByEmail(email) => LookupView::UserByEmail(email@),
            Lookup::UserByToken(value) => LookupView::UserByToken(value@),
            Lookup::Nothing => LookupView::Nothing,
        }
    }
}

/// The rows that resolving `claim` reads: for a password claim the user
/// with the claimed email, for a token whose signature holds the token with
/// that value and its owner, for a forged token nothing.
pub open spec fn lookup_for(claim: AuthenticationView, secret: Seq<u8>) -> LookupView {
    match claim {
        AuthenticationView::Basic(basic) => LookupView::UserByEmail(basic.user),
        AuthenticationView::Token(value) => if signature_holds(value, secret) {
            LookupView::UserByToken(value)
        } else {
            LookupView::Nothing
        },
    }
}

impl Authentication {
    /// Which rows resolving this claim reads. The signature of a token is
    /// checked here, so that a forged token costs no query.
    pub fn lookup(&self, secret: &[u8]) -> (r: Lookup)
        ensures
            r@ == lookup_for(self@, secret@),
    {
        match self {
            Authentication::Basic(basic_auth) => Lookup::UserByEmail(basic_auth.user.clone()),
            Authentication::Token(token_auth) => {
                if verify_value(token_auth.token.as_str(), secret) {
                    Lookup::UserByToken(token_auth.token.clone())
                } else {
                    Lookup::Nothing
                }
            },
        }
    }

    /// Resolves this claim to the user it is the claim of. Nothing is
    /// changed: `db` is only read.
    pub fn authenticate(&self, db: &Db, secret: &[u8]) -> (r: EndpointResult<AuthenticatedUser>)
        ensures
            delivers_identity(r, verdict(db@, self@, secret@)),
    {
        let found = match self {
            Authentication::Basic(basic_auth) => authenticate_by_email_password(
                db,
                basic_auth.user.as_str(),
                basic_auth.password.as_str(),
            ),
            Authentication::Token(token_auth) => authenticate_by_token(
                db,
                token_auth.token.as_str(),
                secret,
            ),
        };
        match found {
            Ok(user) => Ok(user.authenticated()),
            Err(err) => Err(err),
        }
    }
}

/// Resolves a claim of email and password.
pub fn authenticate_by_email_password(db: &Db, user_email: &str, password: &str) -> (r:
    EndpointResult<User>)
    ensures
        delivers(r, password_verdict(db@, user_email@, password@)),
{
    let user = match db.find_user_by_email(user_email) {
        Ok(user) => user,
        Err(DbError::Db(QueryError::NotFound)) => {
            return Err(EndpointError::Auth(AuthenticationError::Unauthorized));
        },
        Err(err) => {
            return Err(EndpointError::Db(err));
        },
    };
    let matched = match &user.hashed_password {
        Some(digest) => verify_password(password, digest.as_str()),
        None => {
            return Err(EndpointError::Auth(AuthenticationError::Unauthorized));
        },
    };
    match matched {
        Ok(true) => Ok(user),
        Ok(false) => Err(EndpointError::Auth(AuthenticationError::Unauthorized)),
        Err(err) => Err(EndpointError::Auth(err)),
    }
}

/// Resolves a claim of a bearer token. The signature is checked first: a
/// forged value is refused before any table is looked at.
pub fn authenticate_by_token(db: &Db, token: &str, secret: &[u8]) -> (r: EndpointResult<User>)
    ensures
        delivers(r, token_verdict(db@, token@, secret@)),
{
    if !verify_value(token, secret) {
        return Err(EndpointError::Auth(AuthenticationError::Unauthorized));
    }
    match User::find_by_token(db, token) {
        Ok(user) => Ok(user),
        Err(DbError::Db(QueryError::NotFound)) => Err(
            EndpointError::Auth(AuthenticationError::Unauthorized),
        ),
        Err(err) => Err(EndpointError::Db(err)),
    }
}

/// A user without a colon and any password, written with a colon between
/// them, spell themselves: the password may hold colons of its own.
pub proof fn law_credentials_split_at_the_colon(user: Seq<char>, password: Seq<char>)
    requires
        !user.contains(':'),
    ensures
        credentials(user + seq![':'] + password) == Some(
            BasicAuthView { user: user, password: password },
        ),
{
    let text = user + seq![':'] + password;
    let at = user.len() as int;
    assert forall|j: int| 0 <= j < at implies text[j] != ':' by {
        assert(user.contains(text[j]));
    }
    lemma_first_where_is(text, |c: char| c == ':', at);
    assert(text.take(at) =~= user);
    assert(text.skip(at + 1) =~= password);
}

/// A text spells a user and a password exactly where it holds a colon.
pub proof fn law_credentials_need_a_colon(text: Seq<char>)
    ensures
        credentials(text) is Some <==> text.contains(':'),
{
    lemma_first_where(text, |c: char| c == ':');
    if text.contains(':') {
        let i = choose|i: int| 0 <= i < text.len() && text[i] == ':';
        assert(text[i] == ':');
    }
}

/// The header `Bearer`, one space and a value states the claim of that
/// value, taken as it stands, whatever the value is, as long as it is not
/// empty and holds no whitespace.
pub proof fn law_bearer_header_states_its_value(value: Seq<char>)
    requires
        value.len() > 0,
        forall|j: int| 0 <= j < value.len() ==> !is_whitespace(#[trigger] value[j]),
    ensures
        claim(Some("Bearer"@ + seq![' '] + value)) == Some(AuthenticationView::Token(value)),
{
    reveal_strlit("Bearer");
    reveal_strlit("Basic");
    lemma_words_of_pair("Bearer"@, ' ', value);
}

/// The header `Basic`, one space and a payload states what the payload
/// spells: the claim of its user and password, or none where it spells
/// none. The payload is not empty and holds no whitespace.
pub proof fn law_basic_header_states_its_payload(payload: Seq<char>)
    requires
        payload.len() > 0,
        forall|j: int| 0 <= j < payload.len() ==> !is_whitespace(#[trigger] payload[j]),
    ensures
        claim(Some("Basic"@ + seq![' '] + payload)) == match basic_claim(payload) {
            Ok(basic) => Some(AuthenticationView::Basic(basic)),
            Err(_) => None,
        },
{
    reveal_strlit("Basic");
    lemma_words_of_pair("Basic"@, ' ', payload);
}

/// A header whose words are not exactly two states no claim.
pub proof fn law_malformed_header_states_no_claim(header: Seq<char>)
    requires
        words(header).len() != 2,
    ensures
        claim(Some(header)) is None,
        claim(None) is None,
{
}

/// Whether `password` is a wrong password for the user with `email`: the
/// user is stored and has a digest, and the password does not match it.
pub open spec fn is_wrong_password(db: DbView, email: Seq<char>, password: Seq<char>) -> bool {
    match user_with_email(db.users, email) {
        Some(user) => match user.hashed_password {
            Some(digest) => password_check(password, digest) == Some(false),
            None => false,
        },
        None => false,
    }
}

/// A token that was issued to a stored user authenticates its bearer as a
/// user with that user's id.
pub proof fn law_issued_token_authenticates(
    user: UserView,
    token: TokenView,
    secret: Seq<u8>,
    before: DbView,
    after: DbView,
)
    requires
        user.was_issued(token, secret, before, after),
    ensures
        token_verdict(after, token.value, secret) matches Verdict::Granted(owner) && owner.id
            == user.id,
{
    let by_value = |t: TokenView| t.value == token.value;
    let by_id = |u: UserView| u.id == user.id;
    lemma_first_where(before.tokens, by_value);
    lemma_first_where_is(after.tokens, by_value, before.tokens.len() as int);
    lemma_first_where(after.users, by_id);
}

/// A value that no stored token has authenticates nobody, whatever its
/// signature.
pub proof fn law_unknown_token_is_unauthorized(db: DbView, value: Seq<char>, secret: Seq<u8>)
    requires
        token_with_value(db.tokens, value) is None,
    ensures
        token_verdict(db, value, secret) == Verdict::Unauthorized,
{
}

/// A token whose owner is no longer stored authenticates nobody.
pub proof fn law_stale_token_is_unauthorized(db: DbView, value: Seq<char>, secret: Seq<u8>)
    requires
        token_with_value(db.tokens, value) matches Some(token) && user_with_id(
            db.users,
            token.user_id,
        ) is None,
    ensures
        token_verdict(db, value, secret) == Verdict::Unauthorized,
{
}

/// A bearer token is granted exactly where its signature holds and a stored
/// token with its value has a stored owner. Every other token, forged,
/// unknown or stale, comes to the one verdict `Unauthorized`; none comes to
/// a fault.
pub proof fn law_refused_tokens_are_alike(db: DbView, value: Seq<char>, secret: Seq<u8>)
    ensures
        token_verdict(db, value, secret) is Granted <==> signature_holds(value, secret)
            && db.user_with_token(value) is Some,
        !(token_verdict(db, value, secret) is Granted) ==> token_verdict(db, value, secret)
            == Verdict::Unauthorized,
{
}

/// A claim of email and password is granted only to the stored user with
/// that email, and only where checking the password against that user's
/// digest gives a match. Where the check gives a mismatch, the claim is
/// unauthorized.
pub proof fn law_granted_only_on_a_match(db: DbView, email: Seq<char>, password: Seq<char>)
    ensures
        password_verdict(db, email, password) matches Verdict::Granted(user) ==> {
            &&& user_with_email(db.users, email) == Some(user)
            &&& user.hashed_password matches Some(digest) && password_check(password, digest)
                == Some(true)
        },
        is_wrong_password(db, email, password) ==> password_verdict(db, email, password)
            == Verdict::Unauthorized,
{
}

/// A wrong password for a stored user and any password for an email that
/// no user has come to the same verdict, so to the same error: the answer
/// does not tell whether the email is known.
pub proof fn law_wrong_password_like_unknown_email(
    db: DbView,
    known: Seq<char>,
    unknown: Seq<char>,
    password: Seq<char>,
)
    requires
        is_wrong_password(db, known, password),
        user_with_email(db.users, unknown) is None,
    ensures
        password_verdict(db, known, password) == Verdict::Unauthorized,
        password_verdict(db, unknown, password) == Verdict::Unauthorized,
        forall|r: EndpointResult<User>|
            delivers(r, password_verdict(db, known, password)) <==> delivers(
                r,
                password_verdict(db, unknown, password),
            ),
{
}

/// Whether two states of the tables hold the same rows for `lookup`: the
/// same user under the email, or the same owner under the token value.
pub open spec fn agree_on(a: DbView, b: DbView, lookup: LookupView) -> bool {
    match lookup {
        LookupView::UserByEmail(email) => user_with_email(a.users, email) == user_with_email(
            b.users,
            email,
        ),
        LookupView::UserByToken(value) => a.user_with_token(value) == b.user_with_token(value),
        LookupView::Nothing => true,
    }
}

/// Resolving a claim reads the rows that its lookup names and no others:
/// over tables that hold the same rows for the lookup, the claim comes to
/// the same verdict.
pub proof fn law_verdict_reads_only_the_lookup(
    a: DbView,
    b: DbView,
    claim: AuthenticationView,
    secret: Seq<u8>,
)
    requires
        agree_on(a, b, lookup_for(claim, secret)),
    ensures
        verdict(a, claim, secret) == verdict(b, claim, secret),
{
}

/// A claim that needs no row is refused whatever is stored.
pub proof fn law_no_lookup_is_unauthorized(db: DbView, claim: AuthenticationView, secret: Seq<u8>)
    requires
        lookup_for(claim, secret) is Nothing,
    ensures
        verdict(db, claim, secret) == Verdict::Unauthorized,
{
}

} // verus!
