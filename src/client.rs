//! Client configuration: the API key check and the defaults a client starts from.
use vstd::prelude::*;
use vstd::string::StrSliceExecFns;

use crate::error::VeilMailError;
use crate::http::{trim_trailing_slashes, without_trailing_slashes};

verus! {

/// The production host of the API.
pub const DEFAULT_BASE_URL: &'static str = "https://api.veilmail.xyz";

/// Seconds a request may take before it fails.
pub const DEFAULT_TIMEOUT_SECS: u64 = 30;

/// The client-identification header value sent with every request.
pub const USER_AGENT: &'static str = "veilmail-rust/0.1.0";

/// Prefix of keys for the live environment.
pub const LIVE_KEY_PREFIX: &'static str = "veil_live_";

/// Prefix of keys for the test environment.
pub const TEST_KEY_PREFIX: &'static str = "veil_test_";

/// The message of the error for a key of neither environment.
pub const BAD_KEY_MESSAGE: &'static str = "API key must start with 'veil_live_' or 'veil_test_'";

/// Options for configuring the Veil Mail client.
pub struct VeilMailOptions<'a> {
    /// Custom base URL for the API (defaults to `https://api.veilmail.xyz`).
    pub base_url: Option<&'a str>,
    /// Request timeout in seconds (defaults to 30).
    pub timeout_secs: Option<u64>,
}

/// What a client needs to issue requests, fixed at construction.
pub struct ClientConfig {
    /// Base URL, without trailing slashes.
    pub base_url: String,
    /// The bearer credential.
    pub api_key: String,
    /// Request timeout in seconds.
    pub timeout_secs: u64,
}

/// Whether `s` starts with `prefix`.
pub open spec fn has_prefix(s: Seq<char>, prefix: Seq<char>) -> bool {
    prefix.len() <= s.len() && s.subrange(0, prefix.len() as int) == prefix
}

/// Whether `key` belongs to one of the two environments.
pub open spec fn key_accepted(key: Seq<char>) -> bool {
    has_prefix(key, LIVE_KEY_PREFIX@) || has_prefix(key, TEST_KEY_PREFIX@)
}

/// Whether `s` starts with `prefix`.
pub fn starts_with(s: &str, prefix: &str) -> (r: bool)
    ensures
        r == has_prefix(s@, prefix@),
{
    let n = prefix.unicode_len();
    if n > s.unicode_len() {
        return false;
    }
    let mut i: usize = 0;
    while i < n
        invariant
            n == prefix@.len(),
            n <= s@.len(),
            i <= n,
            forall|j: int| 0 <= j < i ==> s@[j] == prefix@[j],
        decreases n - i,
    {
        if s.get_char(i) != prefix.get_char(i) {
            assert(s@.subrange(0, n as int)[i as int] != prefix@[i as int]);
            return false;
        }
        i = i + 1;
    }
    assert(s@.subrange(0, n as int) =~= prefix@);
    true
}

impl ClientConfig {
    /// Checks the API key and fills in the defaults for what `options` leaves open.
    pub fn new(api_key: &str, options: Option<VeilMailOptions<'_>>) -> (r: Result<ClientConfig, VeilMailError>)
        ensures
            !key_accepted(api_key@) ==> (r matches Err(VeilMailError::Other(m)) && m@ == BAD_KEY_MESSAGE@),
            key_accepted(api_key@) ==> (r matches Ok(c) && c.api_key@ == api_key@
                && c.timeout_secs == match options {
                    Some(o) => match o.timeout_secs {
                        Some(t) => t,
                        None => DEFAULT_TIMEOUT_SECS,
                    },
                    None => DEFAULT_TIMEOUT_SECS,
                }
                && c.base_url@ == without_trailing_slashes(match options {
                    Some(o) => match o.base_url {
                        Some(u) => u@,
                        None => DEFAULT_BASE_URL@,
                    },
                    None => DEFAULT_BASE_URL@,
                })),
    {
        if !starts_with(api_key, LIVE_KEY_PREFIX) && !starts_with(api_key, TEST_KEY_PREFIX) {
            return Err(VeilMailError::Other(BAD_KEY_MESSAGE.to_owned()));
        }
        let (base_url, timeout_secs) = match options {
            Some(o) => (o.base_url, o.timeout_secs),
            None => (None, None),
        };
        let base_url = match base_url {
            Some(u) => u,
            None => DEFAULT_BASE_URL,
        };
        let timeout_secs = match timeout_secs {
            Some(t) => t,
            None => DEFAULT_TIMEOUT_SECS,
        };
        Ok(ClientConfig {
            base_url: trim_trailing_slashes(base_url),
            api_key: api_key.to_owned(),
            timeout_secs,
        })
    }
}

} // verus!
