//! What the endpoints share: response builders, pagination and
//! authentication.

pub mod auth;
pub mod helpers;
pub mod pagination;
