//! The rows of the blog's tables.

pub mod comment;
pub mod post;
pub mod token;
pub mod user;

pub use comment::{Comment, NewComment, UpdatedComment};
pub use post::{NewPost, Post, UpdatedPost};
pub use token::{NewToken, Token};
pub use user::{NewUser, UpdatedUser, User};
