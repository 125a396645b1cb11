use vstd::prelude::*;
use vstd::string::StringExecFns;

verus! {

pub open spec fn authority_url(tenant: Seq<char>, path: Seq<char>) -> Seq<char> {
    "https://login.microsoftonline.com/"@ + tenant + path
}

fn tenant_url(tenant: &str, path: &str) -> (r: String)
    ensures
        r@ == authority_url(tenant@, path@),
{
    let mut url = String::from_str("https://login.microsoftonline.com/");
    url.append(tenant);
    url.append(path);
    url
}

/// The tenant's endpoint that starts a device-code flow.
pub fn device_code_endpoint(tenant: &str) -> (r: String)
    ensures
        r@ == authority_url(tenant@, "/oauth2/v2.0/devicecode"@),
{
    tenant_url(tenant, "/oauth2/v2.0/devicecode")
}

/// The tenant's token endpoint, for both the device-code exchange and the
/// refresh-token exchange.
pub fn token_endpoint(tenant: &str) -> (r: String)
    ensures
        r@ == authority_url(tenant@, "/oauth2/v2.0/token"@),
{
    tenant_url(tenant, "/oauth2/v2.0/token")
}

/// The scopes the client asks for: mail access, and a refresh token.
pub fn required_scopes() -> (r: Vec<String>)
    ensures
        r@.len() == 2,
        r@[0]@ == "Mail.ReadWrite"@,
        r@[1]@ == "offline_access"@,
{
    let mut r: Vec<String> = Vec::new();
    r.push(String::from_str("Mail.ReadWrite"));
    r.push(String::from_str("offline_access"));
    r
}

} // verus!
