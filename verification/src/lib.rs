//! Session credentials for a networked service: signed access and refresh
//! tokens, the cookie that carries the refresh token, and single-use rotation.
//!
//! The crate decides and the server around it acts. Nothing here opens a
//! socket or talks to the store: requests come in as plain [`message`]s,
//! the answers of the store come in as values, and what goes out is a
//! response in plain values and, from the [`rotation`], the next thing the
//! server is to do.
//!
//! - [`claims`]: what a token states, and its form as JSON.
//! - [`auth`]: key pairs, the two classes of token, issuing and verifying.
//! - [`message`], [`cookies`], [`header`]: requests, responses and cookies.
//! - [`rotation`], [`store`]: the refresh protocol and the records it keeps.
//! - [`laws`]: what holds of all of these together.
//! - [`route`]: which handler answers a request.
//! - [`account`]: who may register and who may sign in.
//! - [`search`]: the command that creates the search index of the users.
//! - [`json`], [`jwt`], [`clock`], [`ident`]: the faces of the crates and of
//!   the system that the rest builds on, with what is taken on trust of
//!   them.
//! - [`digits`], [`error`]: numbers as text, and failures.

pub mod account;
pub mod auth;
pub mod claims;
pub mod clock;
pub mod cookies;
pub mod digits;
pub mod error;
pub mod header;
pub mod ident;
pub mod json;
pub mod jwt;
pub mod laws;
pub mod message;
pub mod rotation;
pub mod route;
pub mod search;
pub mod store;
