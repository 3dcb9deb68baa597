//! An identity and access service: accounts and how they sign in, groups, the
//! applications that are open to them, API tokens, tokens for a Docker registry
//! and SSH certificates.
//!
//! A request is a value that is moved on by replies ([`protocol`]). It asks the
//! database, the cache, the environment and the mail service one thing at a time;
//! what other crates compute for it is called from [`outside`]. What each request
//! asks and answers is in [`routes`], and what holds of them together, given what
//! the services behind them hold ([`world`]), is in [`laws`].

pub mod error;
pub mod laws;
pub mod models;
pub mod outside;
pub mod protocol;
pub mod routes;
pub mod splitting;
pub mod text;
pub mod tokens;
pub mod world;
