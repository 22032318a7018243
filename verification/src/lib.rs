//! Identity and credential core of a federated service: it lets returning
//! users in and registers new ones, and hands out a bearer token for each.
//!
//! - [`user`] and [`credential`] hold the identity model;
//! - [`password`] is the password policy, [`token`] the token generator;
//! - [`login`] and [`register`] are the two protocols, each a machine that
//!   is told what has happened and answers what is to be done next;
//! - [`store`] keeps users and credentials in memory, a user and its
//!   credential always together;
//! - [`handler`] shapes what callers are told;
//! - [`error`] names the failures, and [`text`] holds what the others need
//!   of character sequences.

pub mod credential;
pub mod error;
pub mod handler;
pub mod login;
pub mod password;
pub mod register;
pub mod store;
pub mod text;
pub mod token;
pub mod user;
