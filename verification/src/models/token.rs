//! Bearer tokens as stored and as issued.

use vstd::prelude::*;

verus! {

/// A stored bearer token. `value` is what the client presents; `user_id`
/// names the user it was issued to.
#[derive(Debug, PartialEq)]
pub struct Token {
    pub id: i32,
    pub value: String,
    pub user_id: i32,
}

/// A token that has not been stored yet.
#[derive(Debug, Clone, PartialEq)]
pub struct NewToken {
    pub value: String,
    pub user_id: i32,
}

/// A stored token over the characters of its value.
pub struct TokenView {
    pub id: i32,
    pub value: Seq<char>,
    pub user_id: i32,
}

/// A token that has not been stored yet, over the characters of its value.
pub struct NewTokenView {
    pub value: Seq<char>,
    pub user_id: i32,
}

impl View for NewToken {
    type V = NewTokenView;

    open spec fn view(&self) -> NewTokenView {
        NewTokenView { value: self.value@, user_id: self.user_id }
    }
}

impl View for Token {
    type V = TokenView;

    open spec fn view(&self) -> TokenView {
        TokenView { id: self.id, value: self.value@, user_id: self.user_id }
    }
}

impl Clone for Token {
    fn clone(&self) -> (r: Self)
        ensures
            r == *self,
    {
        Token { id: self.id, value: self.value.clone(), user_id: self.user_id }
    }
}

} // verus!
