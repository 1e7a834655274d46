//! Verified core of a small control plane that supervises a single
//! compute-engine process behind an authenticated administrative API.
//!
//! The crate holds the logic worth proving: credential and session stores,
//! the bearer-token guard, the engine lifecycle state machine, and the
//! control-forwarding decisions.  Process spawning, network calls and HTTP
//! routing live outside, in an unverified shell that drives this library.

pub mod auth;
pub mod catalog;
pub mod config;
pub mod credentials;
pub mod crypto;
pub mod endpoints;
pub mod engine;
pub mod errors;
pub mod forwarder;
pub mod gateway;
pub mod ident;
pub mod models;
pub mod numfmt;
pub mod services;
pub mod sessions;
pub mod strutil;
