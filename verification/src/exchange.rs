//! The token-exchange client: builds the form-encoded client-credentials
//! exchange call that the host dispatches, non-blocking, to the identity
//! provider.

use vstd::prelude::*;
use crate::config::Config;
use crate::config::ConfigView;
use crate::credentials::Credentials;
use crate::evaluate::spec_contains;

verus! {

use vstd::string::StringExecFns;

/// The exchange call handed to the host for dispatch: a `POST` of a
/// URL-encoded form body to the identity provider's token endpoint.
pub struct ExchangeRequest {
    /// Request method; always `POST`.
    pub method: String,
    /// Path of the token endpoint.
    pub path: String,
    /// Authority of the identity provider.
    pub authority: String,
    /// The full header set of the call.
    pub headers: Vec<(String, String)>,
    /// URL-encoded form body.
    pub body: String,
    /// Timeout of the call, in seconds.
    pub timeout_seconds: u64,
}

/// The form body of the exchange call: grant type, audience, and the
/// captured credentials, verbatim.
pub open spec fn spec_exchange_body(
    audience: Seq<char>,
    client_id: Seq<char>,
    client_secret: Seq<char>,
) -> Seq<char> {
    "grant_type=client_credentials&audience="@ + audience + "&client_id="@ + client_id
        + "&client_secret="@ + client_secret
}

/// The credential portion of the exchange body.
pub open spec fn spec_credential_literal(client_id: Seq<char>, client_secret: Seq<char>) -> Seq<
    char,
> {
    "client_id="@ + client_id + "&client_secret="@ + client_secret
}

/// Whether `req` is the exchange call that configuration `cfg` and the
/// extracted credentials call for (everything but the body, which is pinned
/// separately by [`spec_exchange_body`]).
pub open spec fn exchange_request_wf(req: ExchangeRequest, cfg: ConfigView) -> bool {
    &&& req.method@ == "POST"@
    &&& req.path@ == cfg.idp_path
    &&& req.authority@ == cfg.idp_authority
    &&& req.timeout_seconds == cfg.timeout_seconds
    &&& req.headers@.len() == 4
    &&& req.headers@[0].0@ == ":method"@ && req.headers@[0].1@ == "POST"@
    &&& req.headers@[1].0@ == ":path"@ && req.headers@[1].1@ == cfg.idp_path
    &&& req.headers@[2].0@ == ":authority"@ && req.headers@[2].1@ == cfg.idp_authority
    &&& req.headers@[3].0@ == "content-type"@ && req.headers@[3].1@
        == "application/x-www-form-urlencoded"@
}

/// Builds the exchange call for the given configuration and credentials.
pub fn build_exchange_request(config: &Config, credentials: &Credentials) -> (req: ExchangeRequest)
    ensures
        exchange_request_wf(req, config@),
        req.body@ == spec_exchange_body(
            config@.idp_audience,
            credentials.client_id@,
            credentials.client_secret@,
        ),
{
    let mut body = String::from_str("grant_type=client_credentials&audience=");
    body.append(config.idp_audience.as_str());
    body.append("&client_id=");
    body.append(credentials.client_id.as_str());
    body.append("&client_secret=");
    body.append(credentials.client_secret.as_str());

    let mut headers: Vec<(String, String)> = Vec::new();
    headers.push((String::from_str(":method"), String::from_str("POST")));
    headers.push((String::from_str(":path"), config.idp_path.clone()));
    headers.push((String::from_str(":authority"), config.idp_authority.clone()));
    headers.push(
        (String::from_str("content-type"), String::from_str("application/x-www-form-urlencoded")),
    );

    ExchangeRequest {
        method: String::from_str("POST"),
        path: config.idp_path.clone(),
        authority: config.idp_authority.clone(),
        headers,
        body,
        timeout_seconds: config.timeout_seconds,
    }
}

/// The exchange body carries the captured credentials verbatim: the literal
/// `client_id=<id>&client_secret=<secret>` occurs in it as a substring,
/// whatever the audience and the credential values are.
pub proof fn lemma_exchange_body_contains_credentials(
    audience: Seq<char>,
    client_id: Seq<char>,
    client_secret: Seq<char>,
)
    ensures
        spec_contains(
            spec_exchange_body(audience, client_id, client_secret),
            spec_credential_literal(client_id, client_secret),
        ),
{
    let body = spec_exchange_body(audience, client_id, client_secret);
    let needle = spec_credential_literal(client_id, client_secret);
    reveal_strlit("grant_type=client_credentials&audience=");
    reveal_strlit("&client_id=");
    reveal_strlit("client_id=");
    reveal_strlit("&client_secret=");
    let k: int = "grant_type=client_credentials&audience="@.len() + audience.len() as int + 1;
    assert(body.subrange(k, k + needle.len()) =~= needle);
}

} // verus!
