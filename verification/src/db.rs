//! The user and token tables, and the ways a database operation fails.

use vstd::prelude::*;
use crate::config::{DbConfig, DbConfigView};
use crate::models::token::{NewToken, NewTokenView, Token, TokenView};
use crate::models::user::{NewUser, User, UserView};
use crate::search::{first_where, lemma_first_where, lemma_first_where_is, lemma_first_where_none};
use crate::text::same_text;

verus! {

/// Why a query failed.
#[derive(Debug, PartialEq)]
pub enum QueryError {
    /// No row matches.
    NotFound,
    /// A row with the same unique value is already stored.
    UniqueViolation,
    /// The row refers to a row that is not stored.
    ForeignKeyViolation,
    /// Any other fault; the text says what happened.
    Other(String),
}

/// Why a database operation failed.
#[derive(Debug, PartialEq)]
pub enum DbError {
    /// A query failed.
    Db(QueryError),
    /// The connection pool could not be set up; the text says why.
    PoolInitialization(String),
    /// No connection became free in time; the text says what the pool
    /// reported.
    PoolTimeout(String),
}

impl QueryError {
    /// The message shown for this error.
    pub fn to_string(&self) -> (r: String)
        ensures
            r@ == match *self {
                QueryError::NotFound => "Record not found"@,
                QueryError::UniqueViolation => "Unique constraint violated"@,
                QueryError::ForeignKeyViolation => "Foreign key constraint violated"@,
                QueryError::Other(detail) => detail@,
            },
    {
        match self {
            QueryError::NotFound => "Record not found".to_owned(),
            QueryError::UniqueViolation => "Unique constraint violated".to_owned(),
            QueryError::ForeignKeyViolation => "Foreign key constraint violated".to_owned(),
            QueryError::Other(detail) => detail.clone(),
        }
    }
}

impl DbError {
    /// The message shown for this error.
    pub fn to_string(&self) -> (r: String)
        ensures
            r@ == match *self {
                DbError::Db(_) => "Db error"@,
                DbError::PoolInitialization(_) => "Db pool could not be initialized"@,
                DbError::PoolTimeout(_) => "Timeout while trying to access the Db Pool"@,
            },
    {
        match self {
            DbError::Db(_) => "Db error".to_owned(),
            DbError::PoolInitialization(_) => "Db pool could not be initialized".to_owned(),
            DbError::PoolTimeout(_) => "Timeout while trying to access the Db Pool".to_owned(),
        }
    }

    /// The detail that the error carries.
    pub fn description(&self) -> (r: String)
        ensures
            r@ == match *self {
                DbError::Db(QueryError::NotFound) => "Record not found"@,
                DbError::Db(QueryError::UniqueViolation) => "Unique constraint violated"@,
                DbError::Db(QueryError::ForeignKeyViolation) => "Foreign key constraint violated"@,
                DbError::Db(QueryError::Other(detail)) => detail@,
                DbError::PoolInitialization(detail) => detail@,
                DbError::PoolTimeout(detail) => detail@,
            },
    {
        match self {
            DbError::Db(err) => err.to_string(),
            DbError::PoolInitialization(detail) => detail.clone(),
            DbError::PoolTimeout(detail) => detail.clone(),
        }
    }
}

impl From<QueryError> for DbError {
    fn from(err: QueryError) -> (r: DbError)
        ensures
            r == DbError::Db(err),
    {
        DbError::Db(err)
    }
}

impl vstd::std_specs::convert::FromSpecImpl<QueryError> for DbError {
    open spec fn obeys_from_spec() -> bool {
        true
    }

    open spec fn from_spec(err: QueryError) -> DbError {
        DbError::Db(err)
    }
}

/// The first user whose email is `email`.
pub open spec fn user_with_email(users: Seq<UserView>, email: Seq<char>) -> Option<UserView> {
    match first_where(users, |u: UserView| u.email == email) {
        Some(i) => Some(users[i]),
        None => None,
    }
}

/// The first user whose id is `id`.
pub open spec fn user_with_id(users: Seq<UserView>, id: i32) -> Option<UserView> {
    match first_where(users, |u: UserView| u.id == id) {
        Some(i) => Some(users[i]),
        None => None,
    }
}

/// The first token whose value is `value`.
pub open spec fn token_with_value(tokens: Seq<TokenView>, value: Seq<char>) -> Option<TokenView> {
    match first_where(tokens, |t: TokenView| t.value == value) {
        Some(i) => Some(tokens[i]),
        None => None,
    }
}

/// The first token whose id is `id`.
pub open spec fn token_with_id(tokens: Seq<TokenView>, id: i32) -> Option<TokenView> {
    match first_where(tokens, |t: TokenView| t.id == id) {
        Some(i) => Some(tokens[i]),
        None => None,
    }
}

/// The greatest id among `users`, or 0 where that is greater.
pub open spec fn max_user_id(users: Seq<UserView>) -> int
    decreases users.len(),
{
    if users.len() == 0 {
        0
    } else {
        let rest = max_user_id(users.drop_last());
        if users.last().id > rest {
            users.last().id as int
        } else {
            rest
        }
    }
}

/// The greatest id among `tokens`, or 0 where that is greater.
pub open spec fn max_token_id(tokens: Seq<TokenView>) -> int
    decreases tokens.len(),
{
    if tokens.len() == 0 {
        0
    } else {
        let rest = max_token_id(tokens.drop_last());
        if tokens.last().id > rest {
            tokens.last().id as int
        } else {
            rest
        }
    }
}

/// No user has an id above `max_user_id`.
pub proof fn lemma_max_user_id(users: Seq<UserView>)
    ensures
        0 <= max_user_id(users) <= i32::MAX,
        forall|i: int| 0 <= i < users.len() ==> (#[trigger] users[i]).id <= max_user_id(users),
    decreases users.len(),
{
    if users.len() > 0 {
        let rest = users.drop_last();
        lemma_max_user_id(rest);
        assert forall|i: int| 0 <= i < users.len() implies (#[trigger] users[i]).id <= max_user_id(
            users,
        ) by {
            if i < rest.len() {
                assert(users[i] == rest[i]);
            }
        }
    }
}

/// No token has an id above `max_token_id`.
pub proof fn lemma_max_token_id(tokens: Seq<TokenView>)
    ensures
        0 <= max_token_id(tokens) <= i32::MAX,
        forall|i: int| 0 <= i < tokens.len() ==> (#[trigger] tokens[i]).id <= max_token_id(tokens),
    decreases tokens.len(),
{
    if tokens.len() > 0 {
        let rest = tokens.drop_last();
        lemma_max_token_id(rest);
        assert forall|i: int| 0 <= i < tokens.len() implies (#[trigger] tokens[i]).id
            <= max_token_id(tokens) by {
            if i < rest.len() {
                assert(tokens[i] == rest[i]);
            }
        }
    }
}

/// The two tables over the characters of their rows.
pub struct DbView {
    pub config: DbConfigView,
    pub users: Seq<UserView>,
    pub tokens: Seq<TokenView>,
}

impl DbView {
    /// No two users share an id or an email, and no two tokens share an id
    /// or a value.
    pub open spec fn wf(self) -> bool {
        &&& forall|i: int, j: int|
            0 <= i < j < self.users.len() ==> (#[trigger] self.users[i]).id != (
            #[trigger] self.users[j]).id && self.users[i].email != self.users[j].email
        &&& forall|i: int, j: int|
            0 <= i < j < self.tokens.len() ==> (#[trigger] self.tokens[i]).id != (
            #[trigger] self.tokens[j]).id && self.tokens[i].value != self.tokens[j].value
    }

    /// The user that a bearer of `value` acts for: the owner of the token
    /// with that value. A token whose owner is gone finds nobody.
    pub open spec fn user_with_token(self, value: Seq<char>) -> Option<UserView> {
        match token_with_value(self.tokens, value) {
            Some(token) => user_with_id(self.users, token.user_id),
            None => None,
        }
    }
}

/// The id that the next stored token gets: the one that follows the
/// greatest id in use, or none where no id is left.
pub open spec fn next_token_id(tokens: Seq<TokenView>) -> Option<i32> {
    if max_token_id(tokens) < i32::MAX {
        Some((max_token_id(tokens) + 1) as i32)
    } else {
        None
    }
}

/// The outcome of storing a token, over the characters of the stored row.
pub open spec fn stored_view(r: Result<Token, DbError>) -> Result<TokenView, DbError> {
    match r {
        Ok(token) => Ok(token@),
        Err(e) => Err(e),
    }
}

/// What storing `new_token` in `before` comes to. Where its owner is stored,
/// its value is new and an id is left, the token is stored at the end under
/// the id that follows the greatest one in use. Otherwise nothing changes,
/// and the error says which of the three was not so.
pub open spec fn token_stored(
    before: DbView,
    after: DbView,
    new_token: NewTokenView,
    outcome: Result<TokenView, DbError>,
) -> bool {
    match outcome {
        Ok(token) => {
            &&& user_with_id(before.users, new_token.user_id) is Some
            &&& token_with_value(before.tokens, new_token.value) is None
            &&& max_token_id(before.tokens) < i32::MAX
            &&& token == (TokenView {
                id: (max_token_id(before.tokens) + 1) as i32,
                value: new_token.value,
                user_id: new_token.user_id,
            })
            &&& after == (DbView { tokens: before.tokens.push(token), ..before })
        },
        Err(e) => {
            &&& after == before
            &&& if user_with_id(before.users, new_token.user_id) is None {
                e == DbError::Db(QueryError::ForeignKeyViolation)
            } else if token_with_value(before.tokens, new_token.value) is Some {
                e == DbError::Db(QueryError::UniqueViolation)
            } else {
                &&& max_token_id(before.tokens) == i32::MAX
                &&& e matches DbError::Db(QueryError::Other(detail)) && detail@
                    == "no token id is left"@
            }
        },
    }
}

/// In well-formed tables every stored user is the one found by its email
/// and by its id, and every stored token the one found by its value.
pub proof fn law_stored_rows_are_found(db: DbView, i: int, j: int)
    requires
        db.wf(),
    ensures
        0 <= i < db.users.len() ==> user_with_email(db.users, db.users[i].email) == Some(
            db.users[i],
        ) && user_with_id(db.users, db.users[i].id) == Some(db.users[i]),
        0 <= j < db.tokens.len() ==> token_with_value(db.tokens, db.tokens[j].value) == Some(
            db.tokens[j],
        ),
{
    if 0 <= i < db.users.len() {
        let row = db.users[i];
        lemma_first_where_is(db.users, |u: UserView| u.email == row.email, i);
        lemma_first_where_is(db.users, |u: UserView| u.id == row.id, i);
    }
    if 0 <= j < db.tokens.len() {
        let row = db.tokens[j];
        lemma_first_where_is(db.tokens, |t: TokenView| t.value == row.value, j);
    }
}

/// The rows of the user and token tables that authentication works on,
/// together with the settings of the database they come from.
pub struct Db {
    config: DbConfig,
    users: Vec<User>,
    tokens: Vec<Token>,
}

impl View for Db {
    type V = DbView;

    closed spec fn view(&self) -> DbView {
        DbView {
            config: self.config@,
            users: self.users@.map_values(|u: User| u@),
            tokens: self.tokens@.map_values(|t: Token| t@),
        }
    }
}

impl Db {
    /// A database with the given settings and no rows.
    pub fn new(config: DbConfig) -> (db: Db)
        ensures
            db@.config == config@,
            db@.users == Seq::<UserView>::empty(),
            db@.tokens == Seq::<TokenView>::empty(),
            db@.wf(),
    {
        Db { config: config, users: Vec::new(), tokens: Vec::new() }
    }

    /// The settings of the database that the rows come from.
    pub fn config(&self) -> (r: &DbConfig)
        ensures
            r@ == self@.config,
    {
        &self.config
    }

    fn position_of_email(&self, email: &str) -> (r: Option<usize>)
        ensures
            match r {
                Some(i) => first_where(self@.users, |u: UserView| u.email == email@) == Some(
                    i as int,
                ) && i < self.users.len(),
                None => first_where(self@.users, |u: UserView| u.email == email@) is None,
            },
    {
        let ghost p = |u: UserView| u.email == email@;
        let mut i: usize = 0;
        while i < self.users.len()
            invariant
                i <= self.users.len(),
                p == (|u: UserView| u.email == email@),
                forall|j: int| 0 <= j < i ==> !p(#[trigger] self@.users[j]),
            decreases self.users.len() - i,
        {
            if same_text(self.users[i].email.as_str(), email) {
                proof {
                    lemma_first_where_is(self@.users, p, i as int);
                }
                return Some(i);
            }
            i += 1;
        }
        proof {
            lemma_first_where_none(self@.users, p);
        }
        None
    }

    fn position_of_user(&self, id: i32) -> (r: Option<usize>)
        ensures
            match r {
                Some(i) => first_where(self@.users, |u: UserView| u.id == id) == Some(i as int) && i
                    < self.users.len(),
                None => first_where(self@.users, |u: UserView| u.id == id) is None,
            },
    {
        let ghost p = |u: UserView| u.id == id;
        let mut i: usize = 0;
        while i < self.users.len()
            invariant
                i <= self.users.len(),
                p == (|u: UserView| u.id == id),
                forall|j: int| 0 <= j < i ==> !p(#[trigger] self@.users[j]),
            decreases self.users.len() - i,
        {
            if self.users[i].id == id {
                proof {
                    lemma_first_where_is(self@.users, p, i as int);
                }
                return Some(i);
            }
            i += 1;
        }
        proof {
            lemma_first_where_none(self@.users, p);
        }
        None
    }

    fn position_of_value(&self, value: &str) -> (r: Option<usize>)
        ensures
            match r {
                Some(i) => first_where(self@.tokens, |t: TokenView| t.value == value@) == Some(
                    i as int,
                ) && i < self.tokens.len(),
                None => first_where(self@.tokens, |t: TokenView| t.value == value@) is None,
            },
    {
        let ghost p = |t: TokenView| t.value == value@;
        let mut i: usize = 0;
        while i < self.tokens.len()
            invariant
                i <= self.tokens.len(),
                p == (|t: TokenView| t.value == value@),
                forall|j: int| 0 <= j < i ==> !p(#[trigger] self@.tokens[j]),
            decreases self.tokens.len() - i,
        {
            if same_text(self.tokens[i].value.as_str(), value) {
                proof {
                    lemma_first_where_is(self@.tokens, p, i as int);
                }
                return Some(i);
            }
            i += 1;
        }
        proof {
            lemma_first_where_none(self@.tokens, p);
        }
        None
    }

    fn position_of_token(&self, id: i32) -> (r: Option<usize>)
        ensures
            match r {
                Some(i) => first_where(self@.tokens, |t: TokenView| t.id == id) == Some(i as int)
                    && i < self.tokens.len(),
                None => first_where(self@.tokens, |t: TokenView| t.id == id) is None,
            },
    {
        let ghost p = |t: TokenView| t.id == id;
        let mut i: usize = 0;
        while i < self.tokens.len()
            invariant
                i <= self.tokens.len(),
                p == (|t: TokenView| t.id == id),
                forall|j: int| 0 <= j < i ==> !p(#[trigger] self@.tokens[j]),
            decreases self.tokens.len() - i,
        {
            if self.tokens[i].id == id {
                proof {
                    lemma_first_where_is(self@.tokens, p, i as int);
                }
                return Some(i);
            }
            i += 1;
        }
        proof {
            lemma_first_where_none(self@.tokens, p);
        }
        None
    }

    fn greatest_user_id(&self) -> (r: i32)
        ensures
            r == max_user_id(self@.users),
    {
        let mut m: i32 = 0;
        let mut i: usize = 0;
        while i < self.users.len()
            invariant
                i <= self.users.len(),
                m == max_user_id(self@.users.take(i as int)),
            decreases self.users.len() - i,
        {
            proof {
                let next = self@.users.take(i + 1);
                assert(next.drop_last() =~= self@.users.take(i as int));
            }
            if self.users[i].id > m {
                m = self.users[i].id;
            }
            i += 1;
        }
        assert(self@.users.take(self.users.len() as int) =~= self@.users);
        m
    }

    fn greatest_token_id(&self) -> (r: i32)
        ensures
            r == max_token_id(self@.tokens),
    {
        let mut m: i32 = 0;
        let mut i: usize = 0;
        while i < self.tokens.len()
            invariant
                i <= self.tokens.len(),
                m == max_token_id(self@.tokens.take(i as int)),
            decreases self.tokens.len() - i,
        {
            proof {
                let next = self@.tokens.take(i + 1);
                assert(next.drop_last() =~= self@.tokens.take(i as int));
            }
            if self.tokens[i].id > m {
                m = self.tokens[i].id;
            }
            i += 1;
        }
        assert(self@.tokens.take(self.tokens.len() as int) =~= self@.tokens);
        m
    }

    /// Stores a user row as it is, id included. The row is refused with
    /// `UniqueViolation` where a stored user already has its id or its email.
    pub fn load_user(&mut self, user: User) -> (r: Result<(), DbError>)
        ensures
            match r {
                Ok(_) => {
                    &&& user_with_id(old(self)@.users, user.id) is None
                    &&& user_with_email(old(self)@.users, user.email@) is None
                    &&& final(self)@ == (DbView {
                        users: old(self)@.users.push(user@),
                        ..old(self)@
                    })
                },
                Err(e) => {
                    &&& user_with_id(old(self)@.users, user.id) is Some || user_with_email(
                        old(self)@.users,
                        user.email@,
                    ) is Some
                    &&& e == DbError::Db(QueryError::UniqueViolation)
                    &&& final(self)@ == old(self)@
                },
            },
            old(self)@.wf() ==> final(self)@.wf(),
    {
        if self.position_of_user(user.id).is_some() {
            return Err(DbError::Db(QueryError::UniqueViolation));
        }
        if self.position_of_email(user.email.as_str()).is_some() {
            return Err(DbError::Db(QueryError::UniqueViolation));
        }
        proof {
            lemma_first_where(self@.users, |u: UserView| u.id == user.id);
            lemma_first_where(self@.users, |u: UserView| u.email == user.email@);
        }
        let ghost before = self@;
        self.users.push(user);
        proof {
            assert(self@.users =~= before.users.push(user@));
        }
        Ok(())
    }

    /// Stores a token row as it is, id included. The row is refused with
    /// `UniqueViolation` where a stored token already has its id or its
    /// value. Its owner need not be stored.
    pub fn load_token(&mut self, token: Token) -> (r: Result<(), DbError>)
        ensures
            match r {
                Ok(_) => {
                    &&& token_with_id(old(self)@.tokens, token.id) is None
                    &&& token_with_value(old(self)@.tokens, token.value@) is None
                    &&& final(self)@ == (DbView {
                        tokens: old(self)@.tokens.push(token@),
                        ..old(self)@
                    })
                },
                Err(e) => {
                    &&& token_with_id(old(self)@.tokens, token.id) is Some || token_with_value(
                        old(self)@.tokens,
                        token.value@,
                    ) is Some
                    &&& e == DbError::Db(QueryError::UniqueViolation)
                    &&& final(self)@ == old(self)@
                },
            },
            old(self)@.wf() ==> final(self)@.wf(),
    {
        if self.position_of_token(token.id).is_some() {
            return Err(DbError::Db(QueryError::UniqueViolation));
        }
        if self.position_of_value(token.value.as_str()).is_some() {
            return Err(DbError::Db(QueryError::UniqueViolation));
        }
        proof {
            lemma_first_where(self@.tokens, |t: TokenView| t.id == token.id);
            lemma_first_where(self@.tokens, |t: TokenView| t.value == token.value@);
        }
        let ghost before = self@;
        self.tokens.push(token);
        proof {
            assert(self@.tokens =~= before.tokens.push(token@));
        }
        Ok(())
    }

    /// Stores a new user under the id that follows the greatest one in use.
    /// The user is refused with `UniqueViolation` where its email is taken,
    /// and with another query error where no id is left.
    pub fn insert_user(&mut self, new_user: NewUser) -> (r: Result<User, DbError>)
        ensures
            match r {
                Ok(user) => {
                    &&& user_with_email(old(self)@.users, new_user.email@) is None
                    &&& max_user_id(old(self)@.users) < i32::MAX
                    &&& user@ == (UserView {
                        id: (max_user_id(old(self)@.users) + 1) as i32,
                        name: new_user.name@,
                        username: new_user.username@,
                        email: new_user.email@,
                        hashed_password: Some(new_user.hashed_password@),
                    })
                    &&& final(self)@ == (DbView {
                        users: old(self)@.users.push(user@),
                        ..old(self)@
                    })
                },
                Err(e) => {
                    &&& final(self)@ == old(self)@
                    &&& if user_with_email(old(self)@.users, new_user.email@) is Some {
                        e == DbError::Db(QueryError::UniqueViolation)
                    } else {
                        &&& max_user_id(old(self)@.users) == i32::MAX
                        &&& e matches DbError::Db(QueryError::Other(detail)) && detail@
                            == "no user id is left"@
                    }
                },
            },
            old(self)@.wf() ==> final(self)@.wf(),
    {
        if self.position_of_email(new_user.email.as_str()).is_some() {
            return Err(DbError::Db(QueryError::UniqueViolation));
        }
        let greatest = self.greatest_user_id();
        proof {
            lemma_max_user_id(self@.users);
        }
        if greatest == i32::MAX {
            return Err(DbError::Db(QueryError::Other("no user id is left".to_owned())));
        }
        let user = User {
            id: greatest + 1,
            name: new_user.name,
            username: new_user.username,
            email: new_user.email,
            hashed_password: Some(new_user.hashed_password),
        };
        let stored = user.clone();
        proof {
            lemma_first_where(self@.users, |u: UserView| u.email == user.email@);
        }
        let ghost before = self@;
        self.users.push(user);
        proof {
            assert(self@.users =~= before.users.push(stored@));
        }
        Ok(stored)
    }

    /// The id that the next stored token gets, or `None` where no id is
    /// left.
    pub fn next_token_id(&self) -> (r: Option<i32>)
        ensures
            r == next_token_id(self@.tokens),
    {
        let greatest = self.greatest_token_id();
        proof {
            lemma_max_token_id(self@.tokens);
        }
        if greatest == i32::MAX {
            None
        } else {
            Some(greatest + 1)
        }
    }

    /// Stores a new token under the id that follows the greatest one in
    /// use. The token is refused with `ForeignKeyViolation` where no stored
    /// user has its `user_id`, with `UniqueViolation` where its value is
    /// taken, and with another query error where no id is left.
    pub fn insert_token(&mut self, new_token: NewToken) -> (r: Result<Token, DbError>)
        ensures
            token_stored(old(self)@, final(self)@, new_token@, stored_view(r)),
            old(self)@.wf() ==> final(self)@.wf(),
    {
        if self.position_of_user(new_token.user_id).is_none() {
            return Err(DbError::Db(QueryError::ForeignKeyViolation));
        }
        if self.position_of_value(new_token.value.as_str()).is_some() {
            return Err(DbError::Db(QueryError::UniqueViolation));
        }
        let greatest = self.greatest_token_id();
        proof {
            lemma_max_token_id(self@.tokens);
        }
        if greatest == i32::MAX {
            return Err(DbError::Db(QueryError::Other("no token id is left".to_owned())));
        }
        let token = Token { id: greatest + 1, value: new_token.value, user_id: new_token.user_id };
        let stored = token.clone();
        proof {
            lemma_first_where(self@.tokens, |t: TokenView| t.value == token.value@);
        }
        let ghost before = self@;
        self.tokens.push(token);
        proof {
            assert(self@.tokens =~= before.tokens.push(stored@));
        }
        Ok(stored)
    }

    /// Removes the first user whose id is `id` and returns it; `NotFound`
    /// where there is none. The user's tokens stay.
    pub fn delete_user(&mut self, id: i32) -> (r: Result<User, DbError>)
        ensures
            match first_where(old(self)@.users, |u: UserView| u.id == id) {
                Some(i) => {
                    &&& r matches Ok(user) && user@ == old(self)@.users[i]
                    &&& final(self)@ == (DbView {
                        users: old(self)@.users.remove(i),
                        ..old(self)@
                    })
                },
                None => {
                    &&& r == Err::<User, DbError>(DbError::Db(QueryError::NotFound))
                    &&& final(self)@ == old(self)@
                },
            },
            old(self)@.wf() ==> final(self)@.wf(),
    {
        match self.position_of_user(id) {
            Some(i) => {
                let ghost before = self@;
                proof {
                    lemma_first_where(before.users, |u: UserView| u.id == id);
                }
                let user = self.users.remove(i);
                proof {
                    assert(self@.users =~= before.users.remove(i as int));
                }
                Ok(user)
            },
            None => Err(DbError::Db(QueryError::NotFound)),
        }
    }

    /// The first user whose email is `email`; `NotFound` where there is none.
    pub fn find_user_by_email(&self, email: &str) -> (r: Result<User, DbError>)
        ensures
            match user_with_email(self@.users, email@) {
                Some(u) => r matches Ok(user) && user@ == u,
                None => r == Err::<User, DbError>(DbError::Db(QueryError::NotFound)),
            },
    {
        match self.position_of_email(email) {
            Some(i) => Ok(self.users[i].clone()),
            None => Err(DbError::Db(QueryError::NotFound)),
        }
    }

    /// The first user whose id is `id`; `NotFound` where there is none.
    pub fn find_user(&self, id: i32) -> (r: Result<User, DbError>)
        ensures
            match user_with_id(self@.users, id) {
                Some(u) => r matches Ok(user) && user@ == u,
                None => r == Err::<User, DbError>(DbError::Db(QueryError::NotFound)),
            },
    {
        match self.position_of_user(id) {
            Some(i) => Ok(self.users[i].clone()),
            None => Err(DbError::Db(QueryError::NotFound)),
        }
    }

    /// The first token whose value is exactly `value`; `NotFound` where
    /// there is none.
    pub fn find_token(&self, value: &str) -> (r: Result<Token, DbError>)
        ensures
            match token_with_value(self@.tokens, value@) {
                Some(t) => r matches Ok(token) && token@ == t,
                None => r == Err::<Token, DbError>(DbError::Db(QueryError::NotFound)),
            },
    {
        match self.position_of_value(value) {
            Some(i) => Ok(self.tokens[i].clone()),
            None => Err(DbError::Db(QueryError::NotFound)),
        }
    }
}

} // verus!
