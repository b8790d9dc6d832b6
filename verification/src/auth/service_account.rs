//! Service-account credentials and the claims of a token request.

use vstd::prelude::*;

verus! {

/// A Google service-account key, as read from the key JSON file.
#[derive(Debug, Clone, PartialEq)]
pub struct ServiceAccountKey {
    /// The kind of the key, typically `"service_account"`.
    pub key_type: String,
    /// The ID of the Google Cloud project.
    pub project_id: String,
    /// The unique identifier for the private key.
    pub private_key_id: String,
    /// The private key in PEM format.
    pub private_key: String,
    /// The email address of the service account.
    pub client_email: String,
    /// The client ID of the service account.
    pub client_id: String,
    /// The URI of the OAuth 2.0 authorization endpoint.
    pub auth_uri: String,
    /// The URI of the token endpoint.
    pub token_uri: String,
    /// The URI of the public X.509 certificates of the authority.
    pub auth_provider_x509_cert_url: String,
    /// The URI of the service account's X.509 certificate.
    pub client_x509_cert_url: String,
}

/// The claims of the JWT assertion sent to the token endpoint: issuer,
/// requested scope, audience, and the two timestamps.
#[derive(Debug, Clone, PartialEq)]
pub struct Claims {
    /// The issuer of the JWT: the service-account email.
    pub iss: String,
    /// The scope of access requested.
    pub scope: String,
    /// The audience of the JWT: the token endpoint.
    pub aud: String,
    /// The expiration time of the JWT, as seconds since the Unix epoch.
    pub exp: i64,
    /// The issued-at time of the JWT, as seconds since the Unix epoch.
    pub iat: i64,
}

impl Claims {
    /// The claims of a spreadsheet-scoped token request issued at `now`
    /// (seconds since the Unix epoch) and expiring an hour later.
    pub fn for_token_request(service_account: &ServiceAccountKey, now: i64) -> (r: Claims)
        requires
            now + 3600 <= i64::MAX,
        ensures
            r.iss@ == service_account.client_email@,
            r.scope@ == "https://www.googleapis.com/auth/spreadsheets"@,
            r.aud@ == service_account.token_uri@,
            r.iat == now,
            r.exp == now + 3600,
    {
        Claims {
            iss: service_account.client_email.clone(),
            scope: "https://www.googleapis.com/auth/spreadsheets".to_owned(),
            aud: service_account.token_uri.clone(),
            iat: now,
            exp: now + 3600,
        }
    }
}

/// The token endpoint's response to a successful exchange.
#[derive(Debug, Clone, PartialEq)]
pub struct TokenResponse {
    /// The access token to authenticate API requests with.
    pub access_token: String,
    /// The kind of token, typically `"Bearer"`.
    pub token_type: String,
    /// The number of seconds until the access token expires.
    pub expires_in: i64,
}

/// Builder for the application layer's service-account auth client: collects
/// the path of the key file before the client is built (building reads the
/// file and performs the first token exchange, which is the application
/// layer's work).
#[derive(Debug, Clone, PartialEq)]
pub struct ServiceAccountAuthClientBuilder {
    /// The path of the service-account key JSON file.
    pub service_account_path: Option<String>,
}

impl ServiceAccountAuthClientBuilder {
    /// A builder with no key-file path set.
    pub fn new() -> (r: Self)
        ensures
            r.service_account_path is None,
    {
        ServiceAccountAuthClientBuilder { service_account_path: None }
    }

    /// Sets the path of the service-account key JSON file.
    pub fn service_account_path(self, path: &str) -> (r: Self)
        ensures
            r.service_account_path is Some && r.service_account_path.unwrap()@ == path@,
    {
        ServiceAccountAuthClientBuilder { service_account_path: Some(path.to_owned()) }
    }
}

impl Default for ServiceAccountAuthClientBuilder {
    /// Same as [`ServiceAccountAuthClientBuilder::new`].
    fn default() -> (r: Self)
        ensures
            r.service_account_path is None,
    {
        ServiceAccountAuthClientBuilder::new()
    }
}

} // verus!
