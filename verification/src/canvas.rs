//! Connection settings shared by every request against one Canvas server.

use vstd::prelude::*;

verus! {

/// The server's base URL and the bearer token that authenticates every
/// request. Immutable for the lifetime of a request sequence.
pub struct CanvasInformation {
    base_url: String,
    token: String,
}

impl CanvasInformation {
    /// The base URL, as a sequence of characters.
    pub closed spec fn spec_base_url(&self) -> Seq<char> {
        self.base_url@
    }

    /// The bearer token, as a sequence of characters.
    pub closed spec fn spec_token(&self) -> Seq<char> {
        self.token@
    }

    /// Create the connection settings from a base URL and an access token.
    pub fn new(base_url: &str, token: &str) -> (r: Self)
        ensures
            r.spec_base_url() == base_url@,
            r.spec_token() == token@,
    {
        CanvasInformation { base_url: base_url.to_owned(), token: token.to_owned() }
    }

    /// Prefix a relative endpoint path with the base URL and the fixed
    /// API-version segment. Applied exactly once per caller-built URL,
    /// never to a server-supplied continuation link.
    pub fn add_url_prefix(&self, url: &str) -> (r: String)
        ensures
            r@ == self.spec_base_url() + "/api/v1/"@ + url@,
    {
        let mut s = self.base_url.clone();
        s.append("/api/v1/");
        s.append(url);
        s
    }

    /// The access token itself.
    pub fn get_token(&self) -> (r: &str)
        ensures
            r@ == self.spec_token(),
    {
        self.token.as_str()
    }

    /// The value of the `Authorization` header sent with every request.
    pub fn auth_header_value(&self) -> (r: String)
        ensures
            r@ == "Bearer "@ + self.spec_token(),
    {
        let mut s = String::new();
        s.append("Bearer ");
        s.append(self.token.as_str());
        s
    }
}

} // verus!
