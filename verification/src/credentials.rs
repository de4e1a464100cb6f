//! Credential extraction: reads the client identifier and client secret
//! from the inbound request's header set, under the configured header
//! names. Extraction is a local decision — no call is made.

use vstd::prelude::*;
use crate::config::Config;
use crate::config::ConfigView;

verus! {

/// The client credential pair captured from the request headers.
pub struct Credentials {
    pub client_id: String,
    pub client_secret: String,
}

impl View for Credentials {
    type V = (Seq<char>, Seq<char>);

    /// Mathematical view: the pair of header values.
    open spec fn view(&self) -> (Seq<char>, Seq<char>) {
        (self.client_id@, self.client_secret@)
    }
}

/// The value of the first header named `name`, if any.
pub open spec fn spec_header_lookup(headers: Seq<(String, String)>, name: Seq<char>) -> Option<
    Seq<char>,
>
    decreases headers.len(),
{
    if headers.len() == 0 {
        None
    } else if headers[0].0@ == name {
        Some(headers[0].1@)
    } else {
        spec_header_lookup(headers.drop_first(), name)
    }
}

/// The credential pair the request carries, or `None` when either
/// configured credential header is absent.
pub open spec fn spec_extract(headers: Seq<(String, String)>, cfg: ConfigView) -> Option<
    (Seq<char>, Seq<char>),
> {
    match (spec_header_lookup(headers, cfg.id_header), spec_header_lookup(
        headers,
        cfg.secret_header,
    )) {
        (Some(id), Some(secret)) => Some((id, secret)),
        _ => None,
    }
}

/// Returns the value of the first header named `name`.
pub fn header_lookup(headers: &Vec<(String, String)>, name: &String) -> (r: Option<String>)
    ensures
        match r {
            Some(v) => spec_header_lookup(headers@, name@) == Some(v@),
            None => spec_header_lookup(headers@, name@) is None,
        },
{
    let mut i: usize = 0;
    assert(headers@.skip(0) =~= headers@);
    while i < headers.len()
        invariant
            0 <= i <= headers@.len(),
            spec_header_lookup(headers@, name@) == spec_header_lookup(
                headers@.skip(i as int),
                name@,
            ),
        decreases headers@.len() - i,
    {
        assert(headers@.skip(i as int)[0] == headers@[i as int]);
        assert(headers@.skip(i as int).len() == headers@.len() - i);
        if headers[i].0 == *name {
            return Some(headers[i].1.clone());
        }
        assert(headers@.skip(i as int).drop_first() =~= headers@.skip(i as int + 1));
        i = i + 1;
    }
    None
}

/// Extracts the credential pair from the request headers, under the
/// configured header names. Returns `None` — the `MissingCredentials`
/// outcome — exactly when either header is absent.
pub fn extract_credentials(headers: &Vec<(String, String)>, config: &Config) -> (r: Option<
    Credentials,
>)
    ensures
        match r {
            Some(c) => spec_extract(headers@, config@) == Some(c@),
            None => spec_extract(headers@, config@) is None,
        },
{
    let id = header_lookup(headers, &config.id_header);
    let secret = header_lookup(headers, &config.secret_header);
    match (id, secret) {
        (Some(client_id), Some(client_secret)) => Some(Credentials { client_id, client_secret }),
        _ => None,
    }
}

} // verus!
