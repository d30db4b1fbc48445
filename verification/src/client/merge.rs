//! Merging command-line arguments into the client settings.

use vstd::prelude::*;
use crate::client::ClientConfig;

verus! {

/// Settings with every given argument put in place of the configured value.
pub fn merge_with_args(config: ClientConfig, url: Option<String>, token: Option<String>, timeout: Option<u64>)
    -> (r: ClientConfig)
    ensures
        r.url == (match url { Some(u) => Some(u), None => config.url }),
        r.token == (match token { Some(t) => Some(t), None => config.token }),
        r.timeout_ms == (match timeout { Some(t) => Some(t), None => config.timeout_ms }),
{
    let mut c = config;
    match url {
        Some(u) => c.set_url(u),
        None => {},
    }
    match token {
        Some(t) => c.set_token(t),
        None => {},
    }
    match timeout {
        Some(t) => c.set_timeout_ms(t),
        None => {},
    }
    c
}

} // verus!
