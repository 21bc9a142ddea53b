//! Users as stored, as submitted and as edited.

use vstd::prelude::*;
use crate::db::{
    lemma_max_token_id, next_token_id, stored_view, token_stored, token_with_value, user_with_id,
    Db, DbError, DbView, QueryError,
};
use crate::search::lemma_first_where;
use crate::endpoints::auth::AuthenticationError;
use crate::models::token::{NewToken, NewTokenView, Token, TokenView};
use crate::password::{digest_cost, hash_password, password_check, DEFAULT_COST};
use crate::signing::{sign_subject, signature_holds, signed_value};

verus! {

/// A stored user. `hashed_password` is absent for a user that was created
/// without a password.
#[derive(Debug, PartialEq)]
pub struct User {
    pub id: i32,
    pub name: String,
    pub username: String,
    pub email: String,
    pub hashed_password: Option<String>,
}

/// A user that has not been stored yet.
#[derive(Debug, Clone, PartialEq)]
pub struct NewUser {
    pub name: String,
    pub username: String,
    pub email: String,
    pub hashed_password: String,
}

/// The fields of a user that an edit may replace.
#[derive(Debug, Clone, PartialEq)]
pub struct UpdatedUser {
    pub name: Option<String>,
    pub username: Option<String>,
    pub email: Option<String>,
}

/// A stored user over the characters of its fields.
pub struct UserView {
    pub id: i32,
    pub name: Seq<char>,
    pub username: Seq<char>,
    pub email: Seq<char>,
    pub hashed_password: Option<Seq<char>>,
}

impl View for User {
    type V = UserView;

    open spec fn view(&self) -> UserView {
        UserView {
            id: self.id,
            name: self.name@,
            username: self.username@,
            email: self.email@,
            hashed_password: match self.hashed_password {
                Some(h) => Some(h@),
                None => None,
            },
        }
    }
}

impl Clone for User {
    fn clone(&self) -> (r: Self)
        ensures
            r == *self,
    {
        let hashed_password = match &self.hashed_password {
            Some(h) => Some(h.clone()),
            None => None,
        };
        User {
            id: self.id,
            name: self.name.clone(),
            username: self.username.clone(),
            email: self.email.clone(),
            hashed_password,
        }
    }
}

/// What the endpoints get to know of the user that a request is
/// authenticated as.
#[derive(Debug, PartialEq)]
pub struct AuthenticatedUser {
    pub id: i32,
    pub username: String,
    pub email: String,
}

/// An authenticated user over the characters of its fields.
pub struct AuthenticatedUserView {
    pub id: i32,
    pub username: Seq<char>,
    pub email: Seq<char>,
}

impl View for AuthenticatedUser {
    type V = AuthenticatedUserView;

    open spec fn view(&self) -> AuthenticatedUserView {
        AuthenticatedUserView { id: self.id, username: self.username@, email: self.email@ }
    }
}

impl UserView {
    /// The part of the user that the endpoints get to know.
    pub open spec fn identity(self) -> AuthenticatedUserView {
        AuthenticatedUserView { id: self.id, username: self.username, email: self.email }
    }

    /// What issuing a token to this user under `secret` comes to, `before`
    /// being the tables as they were and `after` as they are. Where no
    /// token id is left, or no value can be signed, the error says so and
    /// nothing changes. Otherwise the value is the signed value for the
    /// user's email and the next token id, its signature holds, it is not
    /// empty, and the outcome is that of storing it for this user.
    pub open spec fn issue(
        self,
        secret: Seq<u8>,
        before: DbView,
        after: DbView,
        outcome: Result<TokenView, DbError>,
    ) -> bool {
        match next_token_id(before.tokens) {
            None => {
                &&& after == before
                &&& outcome matches Err(DbError::Db(QueryError::Other(detail))) && detail@
                    == "no token id is left"@
            },
            Some(id) => match signed_value(self.email, id, secret) {
                None => {
                    &&& after == before
                    &&& outcome matches Err(DbError::Db(QueryError::Other(detail))) && detail@
                        == "the token could not be signed"@
                },
                Some(value) => {
                    &&& signature_holds(value, secret)
                    &&& value.len() > 0
                    &&& token_stored(
                        before,
                        after,
                        NewTokenView { value: value, user_id: self.id },
                        outcome,
                    )
                },
            },
        }
    }

    /// Whether a token can be issued to this user under `secret`: the user
    /// is stored, a token id is left, a value can be signed for it, and no
    /// stored token has that value yet.
    pub open spec fn can_be_issued(self, secret: Seq<u8>, before: DbView) -> bool {
        &&& user_with_id(before.users, self.id) is Some
        &&& next_token_id(before.tokens) matches Some(id) && signed_value(self.email, id, secret)
            matches Some(value) && token_with_value(before.tokens, value) is None
    }

    /// Whether `token` was issued to this user under `secret` and stored in
    /// `before`, which gave `after`.
    pub open spec fn was_issued(
        self,
        token: TokenView,
        secret: Seq<u8>,
        before: DbView,
        after: DbView,
    ) -> bool {
        self.issue(secret, before, after, Ok(token))
    }
}

/// Issuing a token succeeds exactly where a token can be issued: that a
/// user holds tokens already does not stand in the way.
pub proof fn law_issue_succeeds_where_it_can(
    user: UserView,
    secret: Seq<u8>,
    before: DbView,
    after: DbView,
    outcome: Result<TokenView, DbError>,
)
    requires
        user.issue(secret, before, after, outcome),
    ensures
        outcome is Ok <==> user.can_be_issued(secret, before),
{
}

/// Two tokens that were issued one after the other differ in id and in
/// value, whoever they were issued to.
pub proof fn law_issued_tokens_differ(
    first_user: UserView,
    second_user: UserView,
    first: TokenView,
    second: TokenView,
    secret: Seq<u8>,
    before: DbView,
    between: DbView,
    after: DbView,
)
    requires
        first_user.was_issued(first, secret, before, between),
        second_user.was_issued(second, secret, between, after),
    ensures
        first.id != second.id,
        first.value != second.value,
{
    let last = before.tokens.len() as int;
    assert(between.tokens[last] == first);
    lemma_max_token_id(between.tokens);
    lemma_first_where(between.tokens, |t: TokenView| t.value == second.value);
}

/// Hashes the password of a new user with the default work factor. Every
/// digest that comes back verifies against the same password and was made
/// with that work factor.
pub fn hash_user_password(password: &str) -> (r: Result<String, AuthenticationError>)
    ensures
        match r {
            Ok(digest) => password_check(password@, digest@) == Some(true) && digest_cost(digest@)
                == Some(DEFAULT_COST),
            Err(e) => e is Encryption,
        },
{
    hash_password(password, DEFAULT_COST)
}

impl User {
    /// The part of the user that the endpoints get to know.
    pub fn authenticated(&self) -> (r: AuthenticatedUser)
        ensures
            r@ == self@.identity(),
    {
        AuthenticatedUser {
            id: self.id,
            username: self.username.clone(),
            email: self.email.clone(),
        }
    }

    /// The token with the id `id` that would be issued to this user under
    /// `secret`, not yet stored: its value names the user's email and the
    /// id, and is signed with `secret`. `None` where no value can be signed.
    pub fn new_token(&self, id: i32, secret: &[u8]) -> (r: Option<NewToken>)
        ensures
            match signed_value(self.email@, id, secret@) {
                Some(value) => {
                    &&& r matches Some(token) && token@ == (NewTokenView {
                        value: value,
                        user_id: self.id,
                    })
                    &&& signature_holds(value, secret@)
                    &&& value.len() > 0
                },
                None => r is None,
            },
    {
        match sign_subject(self.email.as_str(), id, secret) {
            Ok(value) => Some(NewToken { value: value, user_id: self.id }),
            Err(_) => None,
        }
    }

    /// Issues a token to this user: signs a value for the user's email and
    /// the next token id with `secret`, and stores it in `db`. Each issue
    /// signs another id, so that a user may hold many tokens.
    pub fn generate_token(&mut self, db: &mut Db, secret: &[u8]) -> (r: Result<Token, DbError>)
        ensures
            *final(self) == *old(self),
            old(self)@.issue(secret@, old(db)@, final(db)@, stored_view(r)),
            old(db)@.wf() ==> final(db)@.wf(),
    {
        let id = match db.next_token_id() {
            Some(id) => id,
            None => {
                return Err(DbError::Db(QueryError::Other("no token id is left".to_owned())));
            },
        };
        match self.new_token(id, secret) {
            Some(new_token) => db.insert_token(new_token),
            None => Err(DbError::Db(QueryError::Other("the token could not be signed".to_owned()))),
        }
    }

    /// The user that the token with exactly this value was issued to;
    /// `NotFound` where no such token is stored, or its owner is gone.
    pub fn find_by_token(db: &Db, token: &str) -> (r: Result<User, DbError>)
        ensures
            match db@.user_with_token(token@) {
                Some(u) => r matches Ok(user) && user@ == u,
                None => r == Err::<User, DbError>(DbError::Db(QueryError::NotFound)),
            },
    {
        match db.find_token(token) {
            Ok(token) => db.find_user(token.user_id),
            Err(err) => Err(err),
        }
    }
}

} // verus!
