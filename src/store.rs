use vstd::prelude::*;

use graph_rs_sdk::oauth::AccessToken;
use serde_json::{Map as JsonMap, Value};

use crate::error::AuthError;
use crate::token::{
    decode_access_token, json_member, member_of, str_member, str_of, token_of, u64_member, u64_of,
    TokenRecord, TokenRecordView,
};

verus! {

/// A JSON object under construction.
#[verifier::external_type_specification]
#[verifier::external_body]
#[verifier::reject_recursive_types(K)]
#[verifier::reject_recursive_types(V)]
pub struct ExJsonMap<K, V>(JsonMap<K, V>);

/// A JSON object under construction.
pub type JsonObject = JsonMap<String, Value>;

/// The members an object under construction holds.
pub uninterp spec fn entries_of(m: JsonMap<String, Value>) -> Map<Seq<char>, Value>;

/// The JSON string holding a text.
pub uninterp spec fn string_value(s: Seq<char>) -> Value;

/// The JSON number holding an integer.
pub uninterp spec fn number_value(n: u64) -> Value;

/// The JSON object holding the members.
pub uninterp spec fn object_value(m: Map<Seq<char>, Value>) -> Value;

/// The JSON an access token encodes to.
pub uninterp spec fn token_json_of(t: AccessToken) -> Option<Value>;

/// The indented JSON text a value prints as.
pub uninterp spec fn text_of(v: Value) -> Option<Seq<char>>;

/// The value a JSON text parses to.
pub uninterp spec fn parsed_of(text: Seq<char>) -> Option<Value>;

/// An object without members.
pub open spec fn empty_members() -> Map<Seq<char>, Value> {
    Map::empty()
}

/// Relies on `serde_json::Map::new`: an empty object.
#[verifier::external_body]
fn new_json_map() -> (r: JsonObject)
    ensures
        entries_of(r) =~= empty_members(),
{
    JsonMap::new()
}

/// Relies on `serde_json::Map::insert`: sets member `k` to `v`.
pub assume_specification[ JsonMap::<String, Value>::insert ](
    m: &mut JsonMap<String, Value>,
    k: String,
    v: Value,
) -> (r: Option<Value>)
    ensures
        entries_of(*final(m)) == entries_of(*old(m)).insert(k@, v),
;

/// Relies on `serde_json::Value::Object`, and on `Value::get` reading an
/// object's members.
#[verifier::external_body]
fn json_object(m: JsonMap<String, Value>) -> (r: Value)
    ensures
        r == object_value(entries_of(m)),
        forall|k: Seq<char>| #[trigger]
            member_of(r, k) == if entries_of(m).contains_key(k) {
                Some(entries_of(m)[k])
            } else {
                None
            },
{
    Value::Object(m)
}

/// Relies on `serde_json::Value::String`, and on `Value::as_str` reading it.
#[verifier::external_body]
fn json_string(s: String) -> (r: Value)
    ensures
        r == string_value(s@),
        str_of(r) == Some(s@),
{
    Value::String(s)
}

/// Relies on `serde_json::Value::from` for `u64`, and on `Value::as_u64`
/// reading it.
#[verifier::external_body]
fn json_number(n: u64) -> (r: Value)
    ensures
        r == number_value(n),
        u64_of(r) == Some(n),
{
    Value::from(n)
}

/// Relies on `serde_json::to_value`: the access token as JSON, in the shape
/// its `Serialize` impl gives it.
#[verifier::external_body]
fn encode_access_token(t: &AccessToken) -> (r: Result<Value, serde_json::Error>)
    ensures
        match r {
            Ok(v) => token_json_of(*t) == Some(v),
            Err(_) => token_json_of(*t) is None,
        },
{
    serde_json::to_value(t)
}

/// Relies on `serde_json::to_string_pretty`: the value as indented JSON text.
#[verifier::external_body]
fn json_text(v: &Value) -> (r: Result<String, serde_json::Error>)
    ensures
        match r {
            Ok(s) => text_of(*v) == Some(s@),
            Err(_) => text_of(*v) is None,
        },
{
    serde_json::to_string_pretty(v)
}

/// Relies on `serde_json::from_str`: parses JSON text.
#[verifier::external_body]
fn parse_json(text: &str) -> (r: Result<Value, serde_json::Error>)
    ensures
        match r {
            Ok(v) => parsed_of(text@) == Some(v),
            Err(_) => parsed_of(text@) is None,
        },
{
    serde_json::from_str(text)
}

/// The cache document for a record whose access token encodes to `token`.
pub open spec fn record_document(rec: TokenRecordView, token: Value) -> Value {
    object_value(
        empty_members().insert("access_token"@, token).insert(
            "refresh_token"@,
            string_value(rec.refresh_token),
        ).insert("expires_at"@, number_value(rec.expires_at)),
    )
}

/// The text a record is saved as: `None` when its token, or the document,
/// cannot be encoded.
pub open spec fn saved_text(rec: TokenRecordView) -> Option<Seq<char>> {
    match token_json_of(rec.access_token) {
        Some(token) => text_of(record_document(rec, token)),
        None => None,
    }
}

/// The record a cache document holds: all three members, of the right kind,
/// or nothing.
pub open spec fn record_in_document(doc: Value) -> Option<TokenRecordView> {
    let access = match member_of(doc, "access_token"@) {
        Some(v) => token_of(v),
        None => None,
    };
    let refresh = str_member(doc, "refresh_token"@);
    let expires = u64_member(doc, "expires_at"@);
    if access is Some && refresh is Some && expires is Some {
        Some(
            TokenRecordView {
                access_token: access->Some_0,
                refresh_token: refresh->Some_0,
                expires_at: expires->Some_0,
            },
        )
    } else {
        None
    }
}

/// The record a cache file's text holds; text that does not parse holds none.
pub open spec fn record_in(text: Seq<char>) -> Option<TokenRecordView> {
    match parsed_of(text) {
        Some(doc) => record_in_document(doc),
        None => None,
    }
}

/// The contents of the token cache file for a record: a JSON object with the
/// members `access_token`, `refresh_token` and `expires_at`.
pub fn encode_record(rec: &TokenRecord) -> (r: Result<String, AuthError>)
    ensures
        match saved_text(rec@) {
            Some(t) => r is Ok && r->Ok_0@ == t,
            None => r == Err::<String, AuthError>(AuthError::PersistenceError),
        },
        r is Ok ==> {
            let doc = record_document(rec@, token_json_of(rec.access_token)->Some_0);
            &&& member_of(doc, "access_token"@) == token_json_of(rec.access_token)
            &&& str_member(doc, "refresh_token"@) == Some(rec.refresh_token@)
            &&& u64_member(doc, "expires_at"@) == Some(rec.expires_at)
        },
{
    let access = match encode_access_token(&rec.access_token) {
        Ok(v) => v,
        Err(_) => {
            return Err(AuthError::PersistenceError);
        },
    };
    let ghost token = access;
    let mut m = new_json_map();
    m.insert("access_token".to_string(), access);
    m.insert("refresh_token".to_string(), json_string(rec.refresh_token.clone()));
    m.insert("expires_at".to_string(), json_number(rec.expires_at));
    let doc = json_object(m);
    proof {
        reveal_strlit("access_token");
        reveal_strlit("refresh_token");
        reveal_strlit("expires_at");
        assert("access_token"@.len() != "refresh_token"@.len());
        assert("access_token"@.len() != "expires_at"@.len());
        assert("refresh_token"@.len() != "expires_at"@.len());
        assert(member_of(doc, "access_token"@) == Some(token));
        assert(member_of(doc, "refresh_token"@) == Some(string_value(rec.refresh_token@)));
        assert(member_of(doc, "expires_at"@) == Some(number_value(rec.expires_at)));
    }
    assert(entries_of(m) =~= empty_members().insert("access_token"@, token).insert(
        "refresh_token"@,
        string_value(rec.refresh_token@),
    ).insert("expires_at"@, number_value(rec.expires_at)));
    match json_text(&doc) {
        Ok(text) => Ok(text),
        Err(_) => Err(AuthError::PersistenceError),
    }
}

/// A record from the members read out of a cache file: the record when all
/// three were present and of the right kind, none otherwise.
pub fn record_from_members(
    access_token: Option<AccessToken>,
    refresh_token: Option<&str>,
    expires_at: Option<u64>,
) -> (r: Option<TokenRecord>)
    ensures
        r is Some <==> (access_token is Some && refresh_token is Some && expires_at is Some),
        r is Some ==> {
            &&& r->Some_0.access_token == access_token->Some_0
            &&& r->Some_0.refresh_token@ == refresh_token->Some_0@
            &&& r->Some_0.expires_at == expires_at->Some_0
        },
{
    match (access_token, refresh_token, expires_at) {
        (Some(access_token), Some(refresh_token), Some(expires_at)) => Some(
            TokenRecord { access_token, refresh_token: refresh_token.to_string(), expires_at },
        ),
        _ => None,
    }
}

/// The record held by the contents of a token cache file. Text that is not
/// JSON, or an object that lacks any of the three members or holds one of
/// the wrong kind, holds no record: a record is read whole or not at all.
pub fn decode_record(text: &str) -> (r: Option<TokenRecord>)
    ensures
        parsed_of(text@) is None ==> r is None,
        r is Some <==> record_in(text@) is Some,
        r is Some ==> r->Some_0@ == record_in(text@)->Some_0,
{
    match parse_json(text) {
        Ok(doc) => {
            let access_token = match json_member(&doc, "access_token") {
                Some(v) => match decode_access_token(v) {
                    Ok(t) => Some(t),
                    Err(_) => None,
                },
                None => None,
            };
            let refresh_token = match json_member(&doc, "refresh_token") {
                Some(v) => v.as_str(),
                None => None,
            };
            let expires_at = match json_member(&doc, "expires_at") {
                Some(v) => v.as_u64(),
                None => None,
            };
            record_from_members(access_token, refresh_token, expires_at)
        },
        Err(_) => None,
    }
}

/// Saving then loading gives the record back. The cache document whose
/// members `encode_record` vouches for, once printed as `text`, loads back as
/// the same record whenever the text parses back to that document and the
/// access token decodes back from the JSON it encoded to (a token whose JSON
/// leaves out a part of it, such as its parsed JWT, does not).
pub proof fn lemma_saved_record_loads_back(rec: TokenRecordView, token: Value, text: Seq<char>)
    requires
        token_json_of(rec.access_token) == Some(token),
        saved_text(rec) == Some(text),
        member_of(record_document(rec, token), "access_token"@) == Some(token),
        str_member(record_document(rec, token), "refresh_token"@) == Some(rec.refresh_token),
        u64_member(record_document(rec, token), "expires_at"@) == Some(rec.expires_at),
        parsed_of(text) == Some(record_document(rec, token)),
        token_of(token) == Some(rec.access_token),
    ensures
        record_in(text) == Some(rec),
{
}

} // verus!
