//! Runtime checks of the token bookkeeping and request-option codes.

use gsheet_api::auth::error::AuthError;
use gsheet_api::auth::service_account::{Claims, ServiceAccountAuthClientBuilder, ServiceAccountKey};
use gsheet_api::auth::token::{AccessToken, TokenProvider};
use gsheet_api::models::value::{
    DateTimeRenderOption, Dimension, ValueInputOption, ValueRenderOption,
};

fn sample_key() -> ServiceAccountKey {
    ServiceAccountKey {
        key_type: "service_account".to_string(),
        project_id: "demo-project".to_string(),
        private_key_id: "kid".to_string(),
        private_key: "pem".to_string(),
        client_email: "robot@demo-project.iam.gserviceaccount.com".to_string(),
        client_id: "123".to_string(),
        auth_uri: "https://accounts.google.com/o/oauth2/auth".to_string(),
        token_uri: "https://oauth2.googleapis.com/token".to_string(),
        auth_provider_x509_cert_url: "https://www.googleapis.com/oauth2/v1/certs".to_string(),
        client_x509_cert_url: "https://example.invalid/cert".to_string(),
    }
}

#[test]
fn token_builder_requires_both_fields() {
    assert!(matches!(
        AccessToken::builder().build(),
        Err(AuthError::Other(_))
    ));
    assert!(matches!(
        AccessToken::builder().token("t").build(),
        Err(AuthError::Other(_))
    ));
    assert!(matches!(
        AccessToken::builder().expires_in(3600).build(),
        Err(AuthError::Other(_))
    ));
}

#[test]
fn token_builder_keeps_the_token_text() {
    let token = AccessToken::builder()
        .token("ya29.sample")
        .expires_in(3600)
        .build()
        .unwrap();
    assert_eq!(token.get_access_token(), "ya29.sample");
}

#[test]
fn fresh_token_is_not_expired() {
    let token = AccessToken::new("t".to_string(), 3600);
    assert!(!token.is_expired());
}

#[test]
fn stale_token_is_expired() {
    let token = AccessToken::new("t".to_string(), 0);
    assert!(token.is_expired());
}

#[test]
fn replacing_the_token_updates_text_and_expiry() {
    let mut token = AccessToken::new("old".to_string(), 0);
    assert!(token.is_expired());
    token.set_token("new".to_string(), 3600);
    assert_eq!(token.get_access_token(), "new");
    assert!(!token.is_expired());
}

#[test]
fn claims_are_scoped_and_stamped() {
    let key = sample_key();
    let claims = Claims::for_token_request(&key, 1_700_000_000);
    assert_eq!(claims.iss, key.client_email);
    assert_eq!(claims.aud, key.token_uri);
    assert_eq!(claims.scope, "https://www.googleapis.com/auth/spreadsheets");
    assert_eq!(claims.iat, 1_700_000_000);
    assert_eq!(claims.exp, 1_700_003_600);
}

#[test]
fn auth_client_builder_collects_the_key_path() {
    let builder = ServiceAccountAuthClientBuilder::new();
    assert_eq!(builder.service_account_path, None);
    let builder = builder.service_account_path("keys.json");
    assert_eq!(builder.service_account_path.as_deref(), Some("keys.json"));
    let builder = ServiceAccountAuthClientBuilder::default();
    assert_eq!(builder.service_account_path, None);
}

#[test]
fn option_codes_match_the_wire_format() {
    assert_eq!(Dimension::Rows.as_str(), "ROWS");
    assert_eq!(Dimension::Columns.as_str(), "COLUMNS");
    assert_eq!(
        Dimension::DimensionUnspecified.as_str(),
        "DIMENSION_UNSPECIFIED"
    );
    assert_eq!(ValueRenderOption::FormattedValue.as_str(), "FORMATTED_VALUE");
    assert_eq!(
        ValueRenderOption::UnformattedValue.as_str(),
        "UNFORMATTED_VALUE"
    );
    assert_eq!(ValueRenderOption::Formula.as_str(), "FORMULA");
    assert_eq!(DateTimeRenderOption::SerialNumber.as_str(), "SERIAL_NUMBER");
    assert_eq!(
        DateTimeRenderOption::FormattedString.as_str(),
        "FORMATTED_STRING"
    );
    assert_eq!(ValueInputOption::Raw.as_str(), "RAW");
    assert_eq!(ValueInputOption::UserEntered.as_str(), "USER_ENTERED");
    assert_eq!(
        ValueInputOption::InputValueOptionUnspecified.as_str(),
        "INPUT_VALUE_OPTION_UNSPECIFIED"
    );
}

#[test]
fn option_defaults_match_the_api() {
    assert!(matches!(Dimension::default(), Dimension::Rows));
    assert!(matches!(
        ValueRenderOption::default(),
        ValueRenderOption::FormattedValue
    ));
    assert!(matches!(
        DateTimeRenderOption::default(),
        DateTimeRenderOption::SerialNumber
    ));
    assert!(matches!(
        ValueInputOption::default(),
        ValueInputOption::UserEntered
    ));
}
