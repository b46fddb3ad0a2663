//! Connection configuration for the metric sink.
//!
//! The configuration is built once at startup and is immutable
//! thereafter: the full write URL (endpoint plus database selectors), the
//! auth token, and the location label stamped on every metric line. The
//! network request itself is an I/O concern of the surrounding program;
//! this module fixes exactly what that request carries.

use vstd::prelude::*;

verus! {

/// Immutable sink configuration: pre-built write URL, auth token, and
/// the location label used to tag metric lines.
#[derive(Debug)]
pub struct Client {
    pub url: String,
    pub token: String,
    pub location: String,
}

impl Client {
    /// Assemble the configuration. The write URL is the endpoint base
    /// followed by the version-2 write path and the organisation and
    /// bucket selectors.
    pub fn new(base_url: &str, org: &str, bucket: &str, token: &str, location: &str) -> (c: Client)
        ensures
            c.url@ == base_url@ + "/api/v2/write?org="@ + org@ + "&bucket="@ + bucket@,
            c.token@ == token@,
            c.location@ == location@,
    {
        let mut url = String::from_str(base_url);
        url.append("/api/v2/write?org=");
        url.append(org);
        url.append("&bucket=");
        url.append(bucket);
        Client { url, token: String::from_str(token), location: String::from_str(location) }
    }

    /// The authorization header value that accompanies every write.
    pub fn auth_header(&self) -> (h: String)
        ensures
            h@ == "Token "@ + self.token@,
    {
        let mut h = String::from_str("Token ");
        h.append(self.token.as_str());
        h
    }
}

} // verus!
