//! Access-token state: the token text and when it expires.

use vstd::prelude::*;

use crate::auth::error::AuthError;

verus! {

/// Something that holds a bearer token: hands the current token out, knows
/// whether it has expired, and accepts a replacement. Implemented by
/// [`AccessToken`]; deployments with their own token source implement it
/// themselves.
pub trait TokenProvider {
    /// The current token text.
    fn get_access_token(&self) -> &str;

    /// Whether the token's lifetime has passed.
    fn is_expired(&self) -> bool;

    /// Replaces the token with a fresh one that lasts `expires_in` seconds.
    fn set_token(&mut self, token: String, expires_in: i64);
}

/// Builder for [`AccessToken`]: both the token text and its lifetime must be
/// set before building.
pub struct AccessTokenBuilder {
    /// The token text, once set.
    pub token: Option<String>,
    /// The token lifetime in seconds, once set.
    pub expires_in: Option<i64>,
}

impl Default for AccessTokenBuilder {
    /// An empty builder: nothing set yet.
    fn default() -> (r: Self)
        ensures
            r.token is None,
            r.expires_in is None,
    {
        AccessTokenBuilder { token: None, expires_in: None }
    }
}

impl AccessTokenBuilder {
    /// Whether both fields needed by [`Self::build`] are set.
    pub open spec fn complete(&self) -> bool {
        self.token is Some && self.expires_in is Some
    }

    /// Sets the token text.
    pub fn token(self, token: &str) -> (r: Self)
        ensures
            r.token is Some && r.token.unwrap()@ == token@,
            r.expires_in == self.expires_in,
    {
        AccessTokenBuilder { token: Some(token.to_owned()), ..self }
    }

    /// Sets the token lifetime, in seconds.
    pub fn expires_in(self, expires_in: i64) -> (r: Self)
        ensures
            r.expires_in == Some(expires_in),
            r.token == self.token,
    {
        AccessTokenBuilder { expires_in: Some(expires_in), ..self }
    }

    /// Builds the token, stamping its expiry from the current time; fails
    /// when the token text or the lifetime was never set.
    pub fn build(self) -> (r: Result<AccessToken, AuthError>)
        ensures
            r is Ok <==> self.complete(),
            r matches Ok(t) ==> t.spec_token() == self.token.unwrap()@,
            r is Err ==> r matches Err(AuthError::Other(_)),
    {
        match (self.token, self.expires_in) {
            (Some(token), Some(expires_in)) => Ok(AccessToken::new(token, expires_in)),
            _ => Err(AuthError::Other("token and expires_in must be set".to_owned())),
        }
    }
}

/// A bearer token together with its expiry, as seconds since the Unix epoch.
/// The stamped expiry is padded ten seconds early so a token is replaced
/// just before the service would reject it.
#[derive(Debug, Clone)]
pub struct AccessToken {
    token: String,
    expires_at: i64,
}

impl AccessToken {
    /// The characters of the held token text.
    pub closed spec fn spec_token(&self) -> Seq<char> {
        self.token@
    }
}

/// Relies on chrono's `Utc::now` and `DateTime::timestamp`: the current
/// time, as whole seconds since the Unix epoch. Nothing is assumed about
/// the value; every caller must hold for any time it may return.
#[verifier::external_body]
fn now_unix_seconds() -> i64 {
    chrono::Utc::now().timestamp()
}

/// The expiry stamp for a token obtained at `now` that lasts `expires_in`
/// seconds: `expires_in` seconds ahead less the ten-second padding, clamped
/// at the ends of `i64`.
fn stamp_expiry(now: i64, expires_in: i64) -> (r: i64)
    ensures
        i64::MIN + 10 <= expires_in && now + (expires_in - 10) <= i64::MAX && i64::MIN <= now + (
        expires_in - 10) ==> r == now + (expires_in - 10),
{
    let padded = match expires_in.checked_sub(10) {
        Some(p) => p,
        None => i64::MIN,
    };
    match now.checked_add(padded) {
        Some(e) => e,
        None => if padded >= 0 {
            i64::MAX
        } else {
            i64::MIN
        },
    }
}

impl AccessToken {
    /// A token that expires `expires_in` seconds from now, less the safety
    /// padding.
    pub fn new(token: String, expires_in: i64) -> (r: Self)
        ensures
            r.spec_token() == token@,
    {
        let now = now_unix_seconds();
        AccessToken { token, expires_at: stamp_expiry(now, expires_in) }
    }

    /// A builder with nothing set yet.
    pub fn builder() -> (r: AccessTokenBuilder)
        ensures
            r.token is None,
            r.expires_in is None,
    {
        AccessTokenBuilder::default()
    }
}

impl TokenProvider for AccessToken {
    fn get_access_token(&self) -> &str {
        self.token.as_str()
    }

    fn is_expired(&self) -> bool {
        self.expires_at < now_unix_seconds()
    }

    fn set_token(&mut self, token: String, expires_in: i64) {
        let now = now_unix_seconds();
        self.token = token;
        self.expires_at = stamp_expiry(now, expires_in);
    }
}

} // verus!
