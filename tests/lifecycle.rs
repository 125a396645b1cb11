use graph_rs_sdk::oauth::AccessToken;
use mail_token::error::AuthError;
use mail_token::lifecycle::{
    authorized_record, expiry_time, get_usable_token, record_from_grant, refreshed_record, TokenPlan,
};
use mail_token::provider::{device_code_endpoint, required_scopes, token_endpoint};
use mail_token::token::{read_grant, Grant, TokenRecord};

fn json(text: &str) -> serde_json::Value {
    serde_json::from_str(text).unwrap()
}

fn token(bearer: &str) -> AccessToken {
    let mut t = AccessToken::default();
    t.set_bearer_token(bearer);
    t.set_token_type("Bearer");
    t
}

fn record(bearer: &str, refresh: &str, expires_at: u64) -> TokenRecord {
    TokenRecord { access_token: token(bearer), refresh_token: refresh.to_string(), expires_at }
}

#[test]
fn fresh_record_is_used_as_is() {
    match get_usable_token(Some(record("cached", "r", 1000)), 999) {
        TokenPlan::UseCached(t) => assert_eq!(t.bearer_token(), "cached"),
        _ => panic!("expected the cached token"),
    }
}

#[test]
fn record_expiring_now_is_stale() {
    match get_usable_token(Some(record("cached", "r-old", 1000)), 1000) {
        TokenPlan::Refresh(r) => assert_eq!(r, "r-old"),
        _ => panic!("expected a refresh"),
    }
    assert!(matches!(get_usable_token(Some(record("cached", "r-old", 10)), 5000), TokenPlan::Refresh(_)));
}

#[test]
fn missing_or_unrenewable_record_needs_authorization() {
    assert!(matches!(get_usable_token(None, 5), TokenPlan::Authorize));
    assert!(matches!(get_usable_token(Some(record("cached", "", 10)), 50), TokenPlan::Authorize));
}

#[test]
fn expiry_adds_lifetime_and_saturates() {
    assert_eq!(expiry_time(1_700_000_000, Some(3600)), 1_700_003_600);
    assert_eq!(expiry_time(100, None), 100);
    assert_eq!(expiry_time(u64::MAX - 1, Some(10)), u64::MAX);
}

#[test]
fn grant_without_new_refresh_token_keeps_the_old_one() {
    let g = Grant { access_token: token("new"), refresh_token: None, expires_in: Some(60) };
    let rec = record_from_grant(g, Some("r-old".to_string()), 1000).unwrap();
    assert_eq!(rec.refresh_token, "r-old");
    assert_eq!(rec.expires_at, 1060);
    assert_eq!(rec.access_token.bearer_token(), "new");
}

#[test]
fn grant_with_new_refresh_token_replaces_the_old_one() {
    let g = Grant { access_token: token("new"), refresh_token: Some("r-new".to_string()), expires_in: None };
    let rec = record_from_grant(g, Some("r-old".to_string()), 1000).unwrap();
    assert_eq!(rec.refresh_token, "r-new");
    assert_eq!(rec.expires_at, 1000);
}

#[test]
fn grant_without_any_refresh_token_is_refused() {
    let g = Grant { access_token: token("new"), refresh_token: None, expires_in: Some(60) };
    assert_eq!(record_from_grant(g, None, 1000).err(), Some(AuthError::ProviderProtocolError));
}

#[test]
fn refresh_of_expired_record_extends_expiry() {
    let prior = record("old", "r-old", 1000);
    let now = 1500;
    assert!(matches!(get_usable_token(Some(prior.clone()), now), TokenPlan::Refresh(_)));
    let body = json(r#"{"access_token":"fresh","token_type":"Bearer","expires_in":3600}"#);
    let rec = refreshed_record(&prior, Some(&body), now).unwrap();
    assert!(rec.expires_at > prior.expires_at);
    assert_eq!(rec.expires_at, 5100);
    assert_eq!(rec.refresh_token, "r-old");
    assert_eq!(rec.access_token.bearer_token(), "fresh");
}

#[test]
fn failed_refresh_is_reported() {
    let prior = record("old", "r-old", 1000);
    assert_eq!(refreshed_record(&prior, None, 2000).err(), Some(AuthError::RefreshFailed));
    let rejection = json(r#"{"error":"invalid_grant"}"#);
    assert_eq!(refreshed_record(&prior, Some(&rejection), 2000).err(), Some(AuthError::RefreshFailed));
}

#[test]
fn device_code_grant_becomes_a_record() {
    let body = json(r#"{"access_token":"a1","token_type":"Bearer","expires_in":"120","refresh_token":"r1","scope":"Mail.ReadWrite"}"#);
    let rec = authorized_record(&body, 10).unwrap();
    assert_eq!(rec.expires_at, 130);
    assert_eq!(rec.refresh_token, "r1");
    assert_eq!(rec.access_token.bearer_token(), "a1");
    let body = json(r#"{"access_token":"a1","token_type":"Bearer","expires_in":120,"refresh_token":"r1"}"#);
    assert_eq!(authorized_record(&body, 10).unwrap().expires_at, 130);
}

#[test]
fn device_code_grant_without_refresh_token_is_refused() {
    let body = json(r#"{"access_token":"a1","token_type":"Bearer","expires_in":120}"#);
    assert_eq!(authorized_record(&body, 10).err(), Some(AuthError::ProviderProtocolError));
    let junk = json(r#"[1,2,3]"#);
    assert_eq!(authorized_record(&junk, 10).err(), Some(AuthError::ProviderProtocolError));
}

#[test]
fn grant_is_read_from_the_body() {
    let body = json(r#"{"access_token":"a2","token_type":"Bearer","expires_in":99,"refresh_token":"r2"}"#);
    let g = read_grant(&body).unwrap();
    assert_eq!(g.access_token.bearer_token(), "a2");
    assert_eq!(g.refresh_token.as_deref(), Some("r2"));
    assert_eq!(g.expires_in, Some(99));
}

#[test]
fn endpoints_are_built_from_the_tenant() {
    assert_eq!(
        device_code_endpoint("contoso"),
        "https://login.microsoftonline.com/contoso/oauth2/v2.0/devicecode"
    );
    assert_eq!(token_endpoint("t-1"), "https://login.microsoftonline.com/t-1/oauth2/v2.0/token");
}

#[test]
fn scopes_ask_for_mail_and_offline_access() {
    assert_eq!(required_scopes(), vec!["Mail.ReadWrite".to_string(), "offline_access".to_string()]);
}
