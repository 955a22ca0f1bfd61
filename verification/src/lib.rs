//! Account registration and e-mail verification.
//!
//! A new account is created with a hashed password and handed two signed,
//! short-lived tokens: an access token under the service-wide secret, and a
//! verification token under a secret of the account's own, by which the
//! account is later marked verified.
//!
//! - `password`, `secret`, `token`, `cookie`, `user_id`, `clock`: the
//!   building blocks, each around the crate that does the work.
//! - `register`, `activate`: the two flows, as state machines that decide
//!   and leave the account store to their caller.
//! - `db`: how the store's answers are read.
//! - `response`, `rejection`: failures and the bodies that clients see.
//! - `model`: a model of the store, and theorems on what the flows do to it.
//! - `hex`, `text`: encoding and text utilities.

pub mod activate;
pub mod clock;
pub mod cookie;
pub mod db;
pub mod hex;
pub mod model;
pub mod password;
pub mod register;
pub mod rejection;
pub mod response;
pub mod secret;
pub mod text;
pub mod token;
pub mod user_id;
