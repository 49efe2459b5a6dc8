//! Session token issuance and validation.

pub mod auth;
