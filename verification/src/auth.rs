//! Authentication support: access-token bookkeeping and the data carried by
//! a service-account credential exchange.
//!
//! The verified parts here are the pure bookkeeping: builders, token state,
//! and the claims a token request is built from. Reading a key file, signing
//! the JWT and exchanging it over HTTP are the application layer's work.

pub mod error;
pub mod service_account;
pub mod token;
