//! Settling the client settings from all their sources, in order of
//! priority: command line, environment, file, defaults.

use vstd::prelude::*;
use crate::client::{ClientConfig, ClientError, client_violation};
use crate::numeric::{parse_u64_spec, parse_u64};
use crate::paths::path_exists;
use crate::text::str_chars;

verus! {

/// The value set by the environment, unless the command line sets it.
pub open spec fn env_unless_override<T>(env: Option<T>, cli: Option<T>, base: Option<T>) -> Option<T> {
    match cli {
        Some(c) => Some(c),
        None => match env {
            Some(e) => Some(e),
            None => base,
        },
    }
}

/// The timeout an environment text sets, when it parses.
pub open spec fn env_timeout_value(env: Option<String>) -> Option<u64> {
    match env {
        Some(t) => parse_u64_spec(t@),
        None => None,
    }
}

/// The settings from a loaded file, the environment variables and the
/// command-line overrides, validated.
pub fn settle_sources(
    file_config: ClientConfig,
    env_url: Option<String>,
    env_token: Option<String>,
    env_timeout: Option<String>,
    url_override: Option<String>,
    token_override: Option<String>,
    timeout_override: Option<u64>,
) -> (r: Result<ClientConfig, ClientError>)
    ensures
        ({
            let c = ClientConfig {
                url: env_unless_override(env_url, url_override, file_config.url),
                token: env_unless_override(env_token, token_override, file_config.token),
                timeout_ms: env_unless_override(env_timeout_value(env_timeout), timeout_override, file_config.timeout_ms),
            };
            match client_violation(c) {
                None => r matches Ok(x) && x == c,
                Some(m) => r matches Err(ClientError::Config { message }) && message@ == m,
            }
        }),
{
    let mut config = file_config;
    if url_override.is_none() {
        match env_url {
            Some(u) => config.set_url(u),
            None => {},
        }
    }
    if token_override.is_none() {
        match env_token {
            Some(t) => config.set_token(t),
            None => {},
        }
    }
    if timeout_override.is_none() {
        match env_timeout {
            Some(t) => {
                let tc = str_chars(t.as_str());
                assert(tc@.subrange(0, tc@.len() as int) =~= tc@);
                match parse_u64(&tc, 0) {
                    Some(n) => config.set_timeout_ms(n),
                    None => {},
                }
            },
            None => {},
        }
    }
    match url_override {
        Some(u) => config.set_url(u),
        None => {},
    }
    match token_override {
        Some(t) => config.set_token(t),
        None => {},
    }
    match timeout_override {
        Some(t) => config.set_timeout_ms(t),
        None => {},
    }
    match config.validate() {
        Ok(()) => Ok(config),
        Err(e) => Err(e),
    }
}

/// Calls `dirs::home_dir`: the user's home directory, if it can be found.
/// It depends on the environment, so nothing is stated of it.
#[verifier::external_body]
pub(crate) fn home_directory() -> (r: Option<String>) {
    dirs::home_dir().map(|p| p.to_string_lossy().to_string())
}

/// Whether the configuration file exists at its standard place. The answer
/// depends on the home directory and the file system.
pub fn config_exists() -> (r: bool) {
    match ClientConfig::default_config_path() {
        Ok(p) => path_exists(p.as_str()),
        Err(_) => false,
    }
}

} // verus!
