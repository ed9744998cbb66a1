//! The authentication gate of a small backend service, and the configuration
//! it runs on.
//!
//! [`config`] puts the configuration together at startup, with [`path`],
//! [`numeric`] and [`keys`] doing the work on paths, numbers and the signing
//! key. [`credential`] reads the bearer token of a request from its headers
//! ([`headers`]), [`gate`] is the state machine every request goes through,
//! and [`runs`] states what holds of whole runs of that machine.

pub mod config;
pub mod credential;
pub mod gate;
pub mod headers;
pub mod keys;
pub mod numeric;
pub mod path;
pub mod runs;
