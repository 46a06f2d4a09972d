//! Verified core of a small portfolio-site backend: credential issuing and
//! checking, request gating, rate limiting, input validation, and the
//! in-memory model of the content store that the mutation handlers act on.
//! The HTTP server, database and outbound mail delivery live outside this
//! library and hand it plain values.

pub mod error;
pub mod validate;
pub mod auth;
pub mod content;
pub mod ratelimit;
pub mod contact;
pub mod gateway;
pub mod config;
