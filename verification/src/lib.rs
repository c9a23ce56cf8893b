//! Dual-token authentication and session rotation for an academic-institution backend.
//!
//! A sign-in gives out a short-lived access token and a long-lived refresh token, both bound
//! to one session whose row is kept in a store. Every request is verified against both
//! tokens. A refresh replaces the refresh token of the session; a refresh token that is
//! presented again after it was replaced gives the session away, and the session is revoked.
//!
//! The rules are stated as contracts and proved. What is taken on trust is what the crates
//! underneath do: signing and checking tokens, hashing passwords, the clock and the random
//! number generator.
//!
//! - [`token`], [`claims`], [`payload`]: the token codec and what tokens carry.
//! - [`session`]: the session store.
//! - [`signin`], [`extractors`], [`refresh`]: issuance, request verification and rotation.
//! - [`authenticator`]: the three of them over one store.
//! - [`guarantees`], [`race`]: what holds of the protocol over every table and every
//!   moment, and of two refreshes at once.
//! - [`credentials`], [`requests`], [`responses`], [`errors`] and the rest: what the
//!   handlers around the protocol compute.

pub mod authenticator;
pub mod claims;
pub mod constants;
pub mod credentials;
pub mod database;
pub mod decimal;
pub mod errors;
pub mod extractors;
pub mod guarantees;
pub mod markdown;
pub mod payload;
pub mod race;
pub mod refresh;
pub mod requests;
pub mod responses;
pub mod session;
pub mod signin;
pub mod students;
pub mod swagger;
pub mod token;
pub mod users;
