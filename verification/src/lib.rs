//! The authentication core of a small blogging REST API.
//!
//! A request states a claim in its `Authorization` header: user and
//! password (`Basic`) or a bearer token (`Bearer`). The crate reads the
//! claim, resolves it against the user and token tables, issues tokens on
//! sign-in, and answers every failure with the one response that clients
//! rely on.
//!
//! - [`endpoints::auth`] reads claims and resolves them; its submodule
//!   `basic` signs users in.
//! - [`db`] holds the rows of the two tables and the ways a database
//!   operation fails; [`models`] holds the rows themselves.
//! - [`password`] hashes and verifies passwords, [`signing`] signs and checks
//!   token values, [`codec`] decodes base64 and UTF-8.
//! - [`endpoint_error`] maps every error to its response; [`http`] and
//!   [`endpoints::helpers`] build responses.
//! - [`config`] and [`env`] read the database settings of an environment.
//! - [`endpoints::pagination`], [`controllers`], [`text`] and [`search`] are
//!   small helpers.
//!
//! Every function carries a contract over the character sequences of the
//! strings and rows it handles. What the crate takes on trust is the
//! behaviour of the crates it calls: each such call stands in one small
//! function whose doc comment says what is assumed of it.

pub mod codec;
pub mod config;
pub mod controllers;
pub mod db;
pub mod endpoint_error;
pub mod endpoints;
pub mod env;
pub mod http;
pub mod models;
pub mod password;
pub mod search;
pub mod signing;
pub mod text;
