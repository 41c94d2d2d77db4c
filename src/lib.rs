//! Credential, session and envelope-encryption core of an authentication service.
//!
//! The document store, the mail transport and the clock are driven from outside: the
//! protocols here name what to do next and take the results back as plain values.
use vstd::prelude::*;

pub mod error;
pub mod hextext;
pub mod crypto;
pub mod validation;
pub mod password;
pub mod user;
pub mod dek;
pub mod tokens;
pub mod jws;
pub mod ids;
pub mod session;
pub mod flows;
pub mod reset;
pub mod auth;
pub mod accounts;
pub mod models;
pub mod listing;
pub mod requests;
pub mod signin;
pub mod signup;
pub mod recovery;

verus! {

} // verus!
