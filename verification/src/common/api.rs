//! API Module
//!
//! [`Api`] describes the transport used against a Grafana server: the host
//! (already suffixed with the API base path) and the bearer token.  The value
//! is read-only after construction.  The library itself only composes request
//! URLs from it; performing the HTTP round trip is left to the embedding
//! program, which hands response bodies back to the decoding functions of the
//! resource modules.

use vstd::prelude::*;

verus! {

/// Ghost model of an [`Api`]: the host and token texts.
pub ghost struct ApiV {
    /// Full base URL, ending in the API path suffix
    pub host: Seq<char>,
    /// Bearer token text
    pub token: Seq<char>,
}

/// Low level API description
#[derive(Debug, PartialEq)]
pub struct Api {
    token: String,
    /// Hostname for Grafana
    pub host: String,
}

impl View for Api {
    type V = ApiV;

    closed spec fn view(&self) -> ApiV {
        ApiV { host: self.host@, token: self.token@ }
    }
}

impl Clone for Api {
    /// Clones are equal to the original, field for field.
    fn clone(&self) -> (r: Self)
        ensures
            r@ == self@,
    {
        Api { token: self.token.clone(), host: self.host.clone() }
    }
}

impl Api {
    /// Create new Api instance; the host gains the `/api` path suffix.
    pub fn new(host: String, token: String) -> (a: Api)
        ensures
            a@ == (ApiV { host: host@ + "/api"@, token: token@ }),
    {
        let mut h = host;
        h.append("/api");
        Api { token, host: h }
    }

    /// The bearer token to attach to requests.
    pub fn token(&self) -> (r: &String)
        ensures
            r@ == self@.token,
    {
        &self.token
    }

    /// The full URL for a request path: host, a slash, then the path.
    pub fn url_for(&self, path: &str) -> (r: String)
        ensures
            r@ == self@.host + "/"@ + path@,
    {
        let mut r = self.host.clone();
        r.append("/");
        r.append(path);
        r
    }
}

} // verus!
