//! Comments as stored, as submitted and as edited.

use vstd::prelude::*;

verus! {

/// A stored comment.
#[derive(Debug, Clone, PartialEq)]
pub struct Comment {
    pub id: i32,
    pub body: String,
    pub published: bool,
    pub user_id: i32,
    pub post_id: i32,
}

/// A comment that has not been stored yet.
#[derive(Debug, Clone, PartialEq)]
pub struct NewComment {
    pub body: String,
    pub user_id: i32,
    pub post_id: i32,
}

/// The fields of a comment that an edit may replace.
#[derive(Debug, Clone, PartialEq)]
pub struct UpdatedComment {
    pub body: Option<String>,
    pub published: Option<bool>,
    pub user_id: Option<i32>,
    pub post_id: Option<i32>,
}

} // verus!
