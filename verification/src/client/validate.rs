//! Checks of the client settings and advice on what is missing.

use vstd::prelude::*;
use crate::client::{ClientConfig, ClientError, client_violation};
use crate::text::{str_chars, chars_to_string};

verus! {

fn owned(t: &str) -> (s: String)
    ensures
        s@ == t@,
{
    chars_to_string(&str_chars(t))
}

/// Validates the settings.
pub fn client_config(config: &ClientConfig) -> (r: Result<(), ClientError>)
    ensures
        match client_violation(*config) {
            None => r is Ok,
            Some(m) => r matches Err(ClientError::Config { message }) && message@ == m,
        },
{
    config.validate()
}

/// Whether requests can be made with these settings.
pub fn is_complete(config: &ClientConfig) -> (r: bool)
    ensures
        r == config.url is Some,
{
    config.is_complete()
}

/// The settings still missing: the server URL when none is set.
pub fn missing_items(config: &ClientConfig) -> (r: Vec<String>)
    ensures
        config.url is None ==> r@.len() == 1 && r@[0]@ == "Server URL"@,
        config.url is Some ==> r@.len() == 0,
{
    let mut missing: Vec<String> = Vec::new();
    if config.url.is_none() {
        missing.push(owned("Server URL"));
    }
    missing
}

/// What to do next: configure a URL when none is set, add a token when none is set.
pub fn suggestions(config: &ClientConfig) -> (r: Vec<String>)
    ensures
        r@.map_values(|s: String| s@) == (if config.url is None {
            seq!["Run 'codeflow-buddy setup' to configure server URL"@]
        } else {
            Seq::empty()
        }) + (if config.token is None {
            seq!["Consider adding an authentication token for secure access"@]
        } else {
            Seq::empty()
        }),
{
    let mut out: Vec<String> = Vec::new();
    if config.url.is_none() {
        out.push(owned("Run 'codeflow-buddy setup' to configure server URL"));
    }
    let ghost first = out@.map_values(|s: String| s@);
    if !config.has_token() {
        out.push(owned("Consider adding an authentication token for secure access"));
        assert(out@.map_values(|s: String| s@) =~= first.push("Consider adding an authentication token for secure access"@));
    }
    assert(out@.map_values(|s: String| s@) =~= (if config.url is None {
        seq!["Run 'codeflow-buddy setup' to configure server URL"@]
    } else {
        Seq::empty()
    }) + (if config.token is None {
        seq!["Consider adding an authentication token for secure access"@]
    } else {
        Seq::empty()
    }));
    out
}

} // verus!
