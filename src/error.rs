use vstd::prelude::*;

verus! {

/// The typed failures that reach the top level of an authentication attempt.
#[derive(PartialEq, Eq, Structural, Debug, Clone, Copy)]
pub enum AuthError {
    /// No valid cached token, and no way to obtain one silently.
    CacheUnavailable,
    /// The refresh-token exchange was rejected or failed on the network.
    RefreshFailed,
    /// The user declined to sign in.
    AuthorizationDeclined,
    /// The device code lapsed before the user signed in.
    AuthorizationExpired,
    /// The provider answered outside its documented protocol.
    ProviderProtocolError,
    /// The token file could not be written.
    PersistenceError,
}

/// The sentence that names a failure's cause to the user.
pub open spec fn description(e: AuthError) -> Seq<char> {
    match e {
        AuthError::CacheUnavailable => "no usable token is cached and none can be obtained silently"@,
        AuthError::RefreshFailed => "the refresh token could not be exchanged for a new access token"@,
        AuthError::AuthorizationDeclined => "the user declined to sign in"@,
        AuthError::AuthorizationExpired => "the device code expired before the user signed in"@,
        AuthError::ProviderProtocolError => "the identity provider answered with an unexpected reply"@,
        AuthError::PersistenceError => "the token cache could not be written"@,
    }
}

impl AuthError {
    /// A sentence for the user that names the cause.
    pub fn describe(&self) -> (r: String)
        ensures
            r@ == description(*self),
    {
        let text = match self {
            AuthError::CacheUnavailable => "no usable token is cached and none can be obtained silently",
            AuthError::RefreshFailed => "the refresh token could not be exchanged for a new access token",
            AuthError::AuthorizationDeclined => "the user declined to sign in",
            AuthError::AuthorizationExpired => "the device code expired before the user signed in",
            AuthError::ProviderProtocolError => "the identity provider answered with an unexpected reply",
            AuthError::PersistenceError => "the token cache could not be written",
        };
        text.to_string()
    }
}

} // verus!
