//! Builders for the proxy server's API paths, and the percent-encoded
//! return target used by the SSO login flow.

use vstd::prelude::*;
use vstd::string::StringExecFns;

verus! {

/// The manifest API path for one identifier: also used to list all
/// databases of one type, where the identifier position carries the type.
pub fn manifest_path(id: &str) -> (r: String)
    ensures
        r@ == "/api/v1/manifests/"@ + id@,
{
    let mut s: String = "/api/v1/manifests/".to_owned();
    s.append(id);
    s
}

/// The authentication API path for one database access token.
pub fn auth_path(token: &str) -> (r: String)
    ensures
        r@ == "/api/v1/auth/"@ + token@,
{
    let mut s: String = "/api/v1/auth/".to_owned();
    s.append(token);
    s
}

/// The client API path for one proxy client.
pub fn client_path(id: &str) -> (r: String)
    ensures
        r@ == "/api/v1/client/"@ + id@,
{
    let mut s: String = "/api/v1/client/".to_owned();
    s.append(id);
    s
}

/// The path under which a token is generated for one proxy client.
pub fn client_token_path(id: &str) -> (r: String)
    ensures
        r@ == "/api/v1/client/"@ + id@ + "/token"@,
{
    let mut s = client_path(id);
    s.append("/token");
    s
}

/// The proxy-schema collection path for one manifest. The double slash is
/// what the server expects: the schema segment is itself an absolute-style
/// constant joined onto the manifest path.
pub fn proxy_schemas_path(manifest_id: &str) -> (r: String)
    ensures
        r@ == "/api/v1/manifests/"@ + manifest_id@ + "//proxy-schemas"@,
{
    let mut s = manifest_path(manifest_id);
    s.append("//proxy-schemas");
    s
}

/// The percent-encoded form of a string, as `urlencoding::encode` produces
/// it.
pub uninterp spec fn url_encoded(s: Seq<char>) -> Seq<char>;

/// Relies on urlencoding::encode: percent-encodes every byte except ASCII
/// alphanumerics and '-', '_', '.', '~'. The result is a function of the
/// input alone, and an empty input gives an empty result.
#[verifier::external_body]
fn encode_component(s: &str) -> (r: String)
    ensures
        r@ == url_encoded(s@),
        s@.len() == 0 ==> r@.len() == 0,
{
    urlencoding::encode(s).into_owned()
}

/// The query value the SSO login flow sends as its return target: the
/// fixed result page, percent-encoded.
pub fn encoded_login_target() -> (r: String)
    ensures
        r@ == url_encoded("/sso/result"@),
{
    encode_component("/sso/result")
}

} // verus!
