//! Errors surfaced by the authentication bookkeeping.

use vstd::prelude::*;

verus! {

/// An error from the token bookkeeping. The surrounding request layer adds
/// its own kinds for file, JSON and transport failures on top of these.
#[derive(Debug, Clone, PartialEq)]
pub enum AuthError {
    /// The access token is expired.
    TokenExpired,
    /// A token request was answered with a failure.
    RequestError(String),
    /// Any other error, described by its message.
    Other(String),
}

} // verus!
