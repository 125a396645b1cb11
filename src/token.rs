use vstd::prelude::*;

use graph_rs_sdk::oauth::AccessToken;

verus! {

/// The provider's access token: bearer credential plus its type and scope,
/// carried through this library untouched.
#[verifier::external_type_specification]
#[verifier::external_body]
pub struct ExAccessToken(AccessToken);

/// A JSON document as the provider's endpoints return it.
#[verifier::external_type_specification]
#[verifier::external_body]
pub struct ExJsonValue(serde_json::Value);

/// Why a JSON document did not decode.
#[verifier::external_type_specification]
#[verifier::external_body]
pub struct ExJsonError(serde_json::Error);

/// The refresh token an access token carries.
pub uninterp spec fn refresh_of(t: AccessToken) -> Option<Seq<char>>;

/// The lifetime in seconds an access token was issued with.
pub uninterp spec fn lifetime_of(t: AccessToken) -> i64;

/// The member of a JSON value under a key.
pub uninterp spec fn member_of(v: serde_json::Value, key: Seq<char>) -> Option<serde_json::Value>;

/// The text a JSON value holds, when it is a string.
pub uninterp spec fn str_of(v: serde_json::Value) -> Option<Seq<char>>;

/// The number a JSON value holds, when it is one that fits a `u64`.
pub uninterp spec fn u64_of(v: serde_json::Value) -> Option<u64>;

/// The access token a JSON value decodes to.
pub uninterp spec fn token_of(v: serde_json::Value) -> Option<AccessToken>;

/// Relies on `AccessToken::refresh_token`: a copy of the refresh token that
/// came with the access token, if any.
pub assume_specification[ AccessToken::refresh_token ](t: &AccessToken) -> (r: Option<String>)
    ensures
        opt_view(r) == refresh_of(*t),
;

/// Relies on `AccessToken::expires_in`: the lifetime the token was issued with.
pub assume_specification[ AccessToken::expires_in ](t: &AccessToken) -> (r: i64)
    ensures
        r == lifetime_of(*t),
;

/// Relies on the `Clone` impl that `AccessToken` derives.
pub assume_specification[ <AccessToken as Clone>::clone ](t: &AccessToken) -> (r: AccessToken);

/// Relies on `serde_json::Value::as_u64`: the number, when the value is one
/// that fits a `u64`.
pub assume_specification[ serde_json::Value::as_u64 ](v: &serde_json::Value) -> (r: Option<u64>)
    ensures
        r == u64_of(*v),
;

/// Relies on `serde_json::Value::as_str`: the text, when the value is a string.
pub assume_specification[ serde_json::Value::as_str ](v: &serde_json::Value) -> (r: Option<&str>)
    ensures
        match r {
            Some(s) => str_of(*v) == Some(s@),
            None => str_of(*v) is None,
        },
;

/// Relies on `serde_json::Value::get`: the member named `key`, when the value
/// is an object that has one.
#[verifier::external_body]
pub(crate) fn json_member<'a>(v: &'a serde_json::Value, key: &str) -> (r: Option<&'a serde_json::Value>)
    ensures
        match r {
            Some(m) => member_of(*v, key@) == Some(*m),
            None => member_of(*v, key@) is None,
        },
{
    v.get(key)
}

/// Relies on `serde_json::from_value`: decodes an access token from the body
/// of a token-endpoint reply.
#[verifier::external_body]
pub(crate) fn decode_access_token(body: &serde_json::Value) -> (r: Result<AccessToken, serde_json::Error>)
    ensures
        match r {
            Ok(t) => token_of(*body) == Some(t),
            Err(_) => token_of(*body) is None,
        },
{
    serde_json::from_value(body.clone())
}

/// The texts of an optional string.
pub open spec fn opt_view(o: Option<String>) -> Option<Seq<char>> {
    match o {
        Some(s) => Some(s@),
        None => None,
    }
}

/// The persisted token: the access token as issued, the credential that
/// renews it, and the second (since the Unix epoch) from which the access
/// token must no longer be used.
#[derive(Debug, Clone)]
pub struct TokenRecord {
    pub access_token: AccessToken,
    pub refresh_token: String,
    pub expires_at: u64,
}

pub struct TokenRecordView {
    pub access_token: AccessToken,
    pub refresh_token: Seq<char>,
    pub expires_at: u64,
}

impl View for TokenRecord {
    type V = TokenRecordView;

    open spec fn view(&self) -> TokenRecordView {
        TokenRecordView {
            access_token: self.access_token,
            refresh_token: self.refresh_token@,
            expires_at: self.expires_at,
        }
    }
}

/// What a successful token-endpoint reply carries, read out of its body.
pub struct Grant {
    pub access_token: AccessToken,
    /// The refresh token issued with it, if the provider sent one.
    pub refresh_token: Option<String>,
    /// The lifetime in seconds, unless the token states a negative one.
    pub expires_in: Option<u64>,
}

pub struct GrantView {
    pub access_token: AccessToken,
    pub refresh_token: Option<Seq<char>>,
    pub expires_in: Option<u64>,
}

impl View for Grant {
    type V = GrantView;

    open spec fn view(&self) -> GrantView {
        GrantView {
            access_token: self.access_token,
            refresh_token: opt_view(self.refresh_token),
            expires_in: self.expires_in,
        }
    }
}

/// The grant an access token stands for.
pub open spec fn grant_of(t: AccessToken) -> GrantView {
    GrantView {
        access_token: t,
        refresh_token: refresh_of(t),
        expires_in: if lifetime_of(t) >= 0 {
            Some(lifetime_of(t) as u64)
        } else {
            None
        },
    }
}

/// The text of a string member, or the number of a `u64` member, of a JSON
/// value.
pub open spec fn str_member(body: serde_json::Value, key: Seq<char>) -> Option<Seq<char>> {
    match member_of(body, key) {
        Some(v) => str_of(v),
        None => None,
    }
}

pub open spec fn u64_member(body: serde_json::Value, key: Seq<char>) -> Option<u64> {
    match member_of(body, key) {
        Some(v) => u64_of(v),
        None => None,
    }
}

/// The text of a JSON value's `error` member, when it is a string.
pub open spec fn error_code_of(body: serde_json::Value) -> Option<Seq<char>> {
    match member_of(body, "error"@) {
        Some(v) => str_of(v),
        None => None,
    }
}

/// The `error` code of a rejected token request, when its body has one.
pub fn error_code(body: &serde_json::Value) -> (r: Option<String>)
    ensures
        opt_view(r) == error_code_of(*body),
{
    match json_member(body, "error") {
        Some(v) => match v.as_str() {
            Some(s) => Some(s.to_string()),
            None => None,
        },
        None => None,
    }
}

/// Reads a token-endpoint reply: the access token it decodes to, with the
/// refresh token and lifetime that token carries. Fails with the decoder's
/// error when the body does not hold an access token.
pub fn read_grant(body: &serde_json::Value) -> (r: Result<Grant, serde_json::Error>)
    ensures
        r is Ok <==> token_of(*body) is Some,
        r matches Ok(g) ==> g@ == grant_of(token_of(*body)->Some_0),
{
    match decode_access_token(body) {
        Ok(t) => {
            let refresh_token = t.refresh_token();
            let lifetime = t.expires_in();
            let expires_in = if lifetime >= 0 {
                Some(lifetime as u64)
            } else {
                None
            };
            Ok(Grant { access_token: t, refresh_token, expires_in })
        },
        Err(e) => Err(e),
    }
}

} // verus!
