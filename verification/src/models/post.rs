//! Posts as stored, as submitted and as edited.

use vstd::prelude::*;

verus! {

/// A stored post.
#[derive(Debug, Clone, PartialEq)]
pub struct Post {
    pub id: i32,
    pub title: String,
    pub body: String,
    pub published: bool,
    pub user_id: Option<i32>,
}

/// A post that has not been stored yet.
#[derive(Debug, Clone, PartialEq)]
pub struct NewPost {
    pub title: String,
    pub body: String,
    pub user_id: Option<i32>,
}

/// The fields of a post that an edit may replace.
#[derive(Debug, Clone, PartialEq)]
pub struct UpdatedPost {
    pub title: Option<String>,
    pub body: Option<String>,
}

} // verus!
