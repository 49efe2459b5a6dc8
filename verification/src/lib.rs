//! Authentication and credential lifecycle engine.
//!
//! The crate verifies the core of a session-based authentication
//! service: validated secret value types, password hashing and
//! verification, signed session tokens with a revocation deny-list, a
//! single-use two-factor challenge protocol, and the orchestration of
//! signup, login, two-factor verification, logout and account deletion
//! over pluggable store backends.

pub mod domain;
pub mod routes;
pub mod services;
pub mod utils;
