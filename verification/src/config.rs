//! Process-wide configuration: identity-provider coordinates, the exchange
//! timeout, and the names of the credential headers. Loaded once at startup
//! and copied into each request context; never mutated afterwards.

use vstd::prelude::*;

verus! {

use vstd::string::StringExecFns;

/// Mathematical view of a [`Config`].
pub struct ConfigView {
    pub idp_authority: Seq<char>,
    pub idp_path: Seq<char>,
    pub idp_audience: Seq<char>,
    pub timeout_seconds: u64,
    pub id_header: Seq<char>,
    pub secret_header: Seq<char>,
}

/// Immutable configuration of the gatekeeper.
pub struct Config {
    /// Authority of the identity provider the exchange call goes to.
    pub idp_authority: String,
    /// Path of the token endpoint at the identity provider.
    pub idp_path: String,
    /// Audience value placed verbatim into the exchange body.
    pub idp_audience: String,
    /// Timeout for the exchange call, in seconds.
    pub timeout_seconds: u64,
    /// Name of the request header carrying the client identifier.
    pub id_header: String,
    /// Name of the request header carrying the client secret.
    pub secret_header: String,
}

impl View for Config {
    type V = ConfigView;

    open spec fn view(&self) -> ConfigView {
        ConfigView {
            idp_authority: self.idp_authority@,
            idp_path: self.idp_path@,
            idp_audience: self.idp_audience@,
            timeout_seconds: self.timeout_seconds,
            id_header: self.id_header@,
            secret_header: self.secret_header@,
        }
    }
}

/// Default name of the header carrying the client identifier.
pub open spec fn default_id_header() -> Seq<char> {
    "client_id"@
}

/// Default name of the header carrying the client secret.
pub open spec fn default_secret_header() -> Seq<char> {
    "client_secret"@
}

/// Default timeout of the exchange call, in seconds.
pub open spec fn default_timeout_seconds() -> u64 {
    10
}

impl Config {
    /// Builds a configuration from all of its parts.
    pub fn new(
        idp_authority: String,
        idp_path: String,
        idp_audience: String,
        timeout_seconds: u64,
        id_header: String,
        secret_header: String,
    ) -> (c: Config)
        ensures
            c@ == (ConfigView {
                idp_authority: idp_authority@,
                idp_path: idp_path@,
                idp_audience: idp_audience@,
                timeout_seconds: timeout_seconds,
                id_header: id_header@,
                secret_header: secret_header@,
            }),
    {
        Config { idp_authority, idp_path, idp_audience, timeout_seconds, id_header, secret_header }
    }

    /// Builds a configuration with the default credential-header names and
    /// the default timeout.
    pub fn with_defaults(idp_authority: String, idp_path: String, idp_audience: String) -> (c:
        Config)
        ensures
            c@.idp_authority == idp_authority@,
            c@.idp_path == idp_path@,
            c@.idp_audience == idp_audience@,
            c@.timeout_seconds == default_timeout_seconds(),
            c@.id_header == default_id_header(),
            c@.secret_header == default_secret_header(),
    {
        Config {
            idp_authority,
            idp_path,
            idp_audience,
            timeout_seconds: 10,
            id_header: String::from_str("client_id"),
            secret_header: String::from_str("client_secret"),
        }
    }
}

} // verus!
