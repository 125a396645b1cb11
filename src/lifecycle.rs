use vstd::prelude::*;

use graph_rs_sdk::oauth::AccessToken;

use vstd::string::StrSliceExecFns;

use crate::error::AuthError;
use crate::token::{
    grant_of, opt_view, read_grant, token_of, Grant, GrantView, TokenRecord, TokenRecordView,
};

verus! {

/// What to do to obtain a usable access token.
pub enum TokenPlan {
    /// The cached token has not expired: use it, no network call needed.
    UseCached(AccessToken),
    /// The cached token expired: exchange this refresh token for a new one.
    Refresh(String),
    /// Nothing usable is cached: the user has to sign in with a device code.
    Authorize,
}

/// Whether a record's access token may still be used at `now`.
pub open spec fn is_fresh(rec: TokenRecord, now: u64) -> bool {
    now < rec.expires_at
}

/// Whether a record holds a refresh token.
pub open spec fn has_refresh_token(rec: TokenRecord) -> bool {
    rec.refresh_token@.len() > 0
}

pub open spec fn plan_for(cache: Option<TokenRecord>, now: u64) -> TokenPlan {
    match cache {
        None => TokenPlan::Authorize,
        Some(rec) => if is_fresh(rec, now) {
            TokenPlan::UseCached(rec.access_token)
        } else if has_refresh_token(rec) {
            TokenPlan::Refresh(rec.refresh_token)
        } else {
            TokenPlan::Authorize
        },
    }
}

/// `now + lifetime`, held at `u64::MAX`; an unstated lifetime counts as zero.
pub open spec fn expiry_after(now: u64, lifetime: Option<u64>) -> u64 {
    let secs: int = match lifetime {
        Some(l) => l as int,
        None => 0,
    };
    if now + secs > u64::MAX {
        u64::MAX
    } else {
        (now + secs) as u64
    }
}

/// The record a grant becomes at `now`. The refresh token issued with it
/// wins; without one, the refresh token it renews is kept; without either no
/// record can be formed.
pub open spec fn record_for(
    grant: GrantView,
    prior_refresh: Option<Seq<char>>,
    now: u64,
) -> Option<TokenRecordView> {
    let refresh = match grant.refresh_token {
        Some(t) => Some(t),
        None => prior_refresh,
    };
    match refresh {
        None => None,
        Some(t) => Some(
            TokenRecordView {
                access_token: grant.access_token,
                refresh_token: t,
                expires_at: expiry_after(now, grant.expires_in),
            },
        ),
    }
}

/// `r` is the record `expected` when there is one, and the failure `e`
/// otherwise.
pub open spec fn yields(
    r: Result<TokenRecord, AuthError>,
    expected: Option<TokenRecordView>,
    e: AuthError,
) -> bool {
    match expected {
        Some(v) => r is Ok && r->Ok_0@ == v,
        None => r == Err::<TokenRecord, AuthError>(e),
    }
}

/// Decides, from the cached record and the time, how to get a usable token.
pub fn get_usable_token(cache: Option<TokenRecord>, now: u64) -> (p: TokenPlan)
    ensures
        p == plan_for(cache, now),
        cache is Some && now < cache->Some_0.expires_at ==> p == TokenPlan::UseCached(
            cache->Some_0.access_token,
        ),
{
    match cache {
        None => TokenPlan::Authorize,
        Some(rec) => {
            if now < rec.expires_at {
                TokenPlan::UseCached(rec.access_token)
            } else if rec.refresh_token.as_str().unicode_len() > 0 {
                TokenPlan::Refresh(rec.refresh_token)
            } else {
                TokenPlan::Authorize
            }
        },
    }
}

/// The expiry second of a token issued at `now` for `lifetime` seconds.
pub fn expiry_time(now: u64, lifetime: Option<u64>) -> (r: u64)
    ensures
        r == expiry_after(now, lifetime),
{
    let secs: u64 = match lifetime {
        Some(l) => l,
        None => 0,
    };
    now.saturating_add(secs)
}

/// Forms the record to persist for a granted token.
pub fn record_from_grant(grant: Grant, prior_refresh: Option<String>, now: u64) -> (r: Result<
    TokenRecord,
    AuthError,
>)
    ensures
        yields(r, record_for(grant@, opt_view(prior_refresh), now), AuthError::ProviderProtocolError),
{
    let expires_at = expiry_time(now, grant.expires_in);
    let refresh_token = match grant.refresh_token {
        Some(t) => t,
        None => match prior_refresh {
            Some(t) => t,
            None => {
                return Err(AuthError::ProviderProtocolError);
            },
        },
    };
    Ok(TokenRecord { access_token: grant.access_token, refresh_token, expires_at })
}

/// The record for the body of a successful device-code token request,
/// issued at `now`. A body that holds no access token, or a token without a
/// refresh token, is a breach of the provider's protocol.
pub fn authorized_record(body: &serde_json::Value, now: u64) -> (r: Result<TokenRecord, AuthError>)
    ensures
        token_of(*body) is None ==> r == Err::<TokenRecord, AuthError>(
            AuthError::ProviderProtocolError,
        ),
        token_of(*body) is Some ==> yields(
            r,
            record_for(grant_of(token_of(*body)->Some_0), None, now),
            AuthError::ProviderProtocolError,
        ),
{
    match read_grant(body) {
        Ok(grant) => record_from_grant(grant, None, now),
        Err(_) => Err(AuthError::ProviderProtocolError),
    }
}

/// The record after a refresh of `prior` at `now`, given the body of the
/// provider's reply, or `None` when the exchange failed on the network. A
/// failed exchange, or a body that holds no access token, fails the refresh;
/// otherwise the refresh token is the newly issued one or, without one, the
/// one just used.
pub fn refreshed_record(prior: &TokenRecord, reply: Option<&serde_json::Value>, now: u64) -> (r:
    Result<TokenRecord, AuthError>)
    ensures
        reply is None ==> r == Err::<TokenRecord, AuthError>(AuthError::RefreshFailed),
        reply is Some && token_of(*reply->Some_0) is None ==> r == Err::<TokenRecord, AuthError>(
            AuthError::RefreshFailed,
        ),
        reply is Some && token_of(*reply->Some_0) is Some ==> {
            &&& r is Ok
            &&& Some(r->Ok_0@) == record_for(
                grant_of(token_of(*reply->Some_0)->Some_0),
                Some(prior.refresh_token@),
                now,
            )
        },
{
    match reply {
        None => Err(AuthError::RefreshFailed),
        Some(body) => match read_grant(body) {
            Ok(grant) => record_from_grant(grant, Some(prior.refresh_token.clone()), now),
            Err(_) => Err(AuthError::RefreshFailed),
        },
    }
}

/// An expired record that holds a refresh token is planned for one refresh,
/// with its own refresh token; when the provider grants a token with a
/// positive lifetime, the record formed from that grant expires strictly
/// later than the old one did.
pub proof fn lemma_refresh_extends_expiry(prior: TokenRecord, grant: GrantView, now: u64)
    requires
        prior.expires_at <= now,
        prior.expires_at < u64::MAX,
        has_refresh_token(prior),
        grant.expires_in matches Some(l) && l > 0,
    ensures
        plan_for(Some(prior), now) == TokenPlan::Refresh(prior.refresh_token),
        record_for(grant, Some(prior.refresh_token@), now) is Some,
        record_for(grant, Some(prior.refresh_token@), now)->Some_0.expires_at > prior.expires_at,
{
}

} // verus!
