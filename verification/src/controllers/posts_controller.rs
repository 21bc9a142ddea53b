//! The actions on posts. Each answers with its name, `posts#` and the
//! action.

use vstd::prelude::*;

verus! {

/// The form for a new post.
pub fn new() -> (r: &'static str)
    ensures
        r@ == "posts#new"@,
{
    "posts#new"
}

/// Stores a new post.
pub fn create() -> (r: &'static str)
    ensures
        r@ == "posts#create"@,
{
    "posts#create"
}

/// Lists the posts.
pub fn index() -> (r: &'static str)
    ensures
        r@ == "posts#index"@,
{
    "posts#index"
}

/// Shows the post `id`.
pub fn show(id: i32) -> (r: &'static str)
    ensures
        r@ == "posts#show"@,
{
    "posts#show"
}

/// The form for editing the post `id`.
pub fn edit(id: i32) -> (r: &'static str)
    ensures
        r@ == "posts#edit"@,
{
    "posts#edit"
}

/// Stores an edit of the post `id`.
pub fn update(id: i32) -> (r: &'static str)
    ensures
        r@ == "posts#update"@,
{
    "posts#update"
}

/// Removes a post.
pub fn destroy() -> (r: &'static str)
    ensures
        r@ == "posts#destroy"@,
{
    "posts#destroy"
}

} // verus!
