//! Client side: errors, connection settings, the session report and the
//! command-line model.

pub mod merge;
pub mod validate;
pub mod discover;

use vstd::prelude::*;
use crate::core_errors::CoreError;
use crate::numeric::{decimal, u64_to_decimal, parse_u64_spec, parse_u64};
use crate::paths::{join_relative, join_relative_path};
use crate::text::{str_chars, chars_to_string, append_str, append_chars};

verus! {

fn owned(t: &str) -> (s: String)
    ensures
        s@ == t@,
{
    chars_to_string(&str_chars(t))
}

/// Error of a client operation.
#[derive(Debug)]
pub enum ClientError {
    /// The configuration is not usable.
    Config { message: String },
    /// The connection failed.
    Connection { message: String },
    /// The transport failed.
    Transport { message: String },
    /// The peer broke the protocol.
    Protocol { message: String },
    /// Authentication failed.
    Authentication { message: String },
    /// An error of the core.
    Core(CoreError),
}

impl ClientError {
    /// A configuration error.
    pub fn config(message: String) -> (r: Self)
        ensures
            r matches ClientError::Config { message: m } && m@ == message@,
    {
        ClientError::Config { message }
    }

    /// A connection error.
    pub fn connection(message: String) -> (r: Self)
        ensures
            r matches ClientError::Connection { message: m } && m@ == message@,
    {
        ClientError::Connection { message }
    }

    /// A transport error.
    pub fn transport(message: String) -> (r: Self)
        ensures
            r matches ClientError::Transport { message: m } && m@ == message@,
    {
        ClientError::Transport { message }
    }

    /// A protocol error.
    pub fn protocol(message: String) -> (r: Self)
        ensures
            r matches ClientError::Protocol { message: m } && m@ == message@,
    {
        ClientError::Protocol { message }
    }

    /// An authentication error.
    pub fn authentication(message: String) -> (r: Self)
        ensures
            r matches ClientError::Authentication { message: m } && m@ == message@,
    {
        ClientError::Authentication { message }
    }

    /// The text the error displays (for a core error, the prefix only is stated).
    pub fn to_message(&self) -> (r: String)
        ensures
            match self {
                ClientError::Config { message } => r@ == "Configuration error: "@ + message@,
                ClientError::Connection { message } => r@ == "Connection error: "@ + message@,
                ClientError::Transport { message } => r@ == "Transport error: "@ + message@,
                ClientError::Protocol { message } => r@ == "Protocol error: "@ + message@,
                ClientError::Authentication { message } => r@ == "Authentication error: "@ + message@,
                ClientError::Core(_) => r@.len() >= 12 && r@.subrange(0, 12) == "Core error: "@,
            },
    {
        let mut v: Vec<char> = Vec::new();
        match self {
            ClientError::Config { message } => {
                append_str(&mut v, "Configuration error: ");
                append_str(&mut v, message.as_str());
            },
            ClientError::Connection { message } => {
                append_str(&mut v, "Connection error: ");
                append_str(&mut v, message.as_str());
            },
            ClientError::Transport { message } => {
                append_str(&mut v, "Transport error: ");
                append_str(&mut v, message.as_str());
            },
            ClientError::Protocol { message } => {
                append_str(&mut v, "Protocol error: ");
                append_str(&mut v, message.as_str());
            },
            ClientError::Authentication { message } => {
                append_str(&mut v, "Authentication error: ");
                append_str(&mut v, message.as_str());
            },
            ClientError::Core(e) => {
                append_str(&mut v, "Core error: ");
                proof {
                    reveal_strlit("Core error: ");
                }
                let ghost head = v@;
                let t = e.to_message();
                append_str(&mut v, t.as_str());
                assert(v@.subrange(0, 12) =~= head);
            },
        }
        chars_to_string(&v)
    }

    /// The core error this error becomes: a core error is handed back as it
    /// is, any other becomes an internal error carrying its text.
    pub fn into_core(self) -> (r: CoreError)
        ensures
            match self {
                ClientError::Core(_) => self matches ClientError::Core(e) && r == e,
                _ => r matches CoreError::Internal { message } && message@.len() >= 14
                    && message@.subrange(0, 14) == "Client error: "@,
            },
    {
        let text = self.to_message();
        match self {
            ClientError::Core(e) => e,
            _ => {
                let mut v: Vec<char> = Vec::new();
                append_str(&mut v, "Client error: ");
                proof {
                    reveal_strlit("Client error: ");
                }
                let ghost head = v@;
                append_str(&mut v, text.as_str());
                assert(v@.subrange(0, 14) =~= head);
                CoreError::internal(chars_to_string(&v))
            },
        }
    }
}

impl From<CoreError> for ClientError {
    fn from(e: CoreError) -> (r: Self) {
        ClientError::Core(e)
    }
}

impl vstd::std_specs::convert::FromSpecImpl<CoreError> for ClientError {
    open spec fn obeys_from_spec() -> bool {
        true
    }

    open spec fn from_spec(e: CoreError) -> Self {
        ClientError::Core(e)
    }
}

/// What `url::Url::parse(text)` reports: `None` when the text parses, else the
/// error's text.
pub uninterp spec fn url_parse_failure(text: Seq<char>) -> Option<Seq<char>>;

/// Calls `url::Url::parse` and keeps only whether it failed and, if so, the
/// error's `Display` text. The result is named, not described.
#[verifier::external_body]
fn url_parse_error(text: &str) -> (r: Option<String>)
    ensures
        match r {
            Some(e) => url_parse_failure(text@) == Some(e@),
            None => url_parse_failure(text@) is None,
        },
{
    url::Url::parse(text).err().map(|e| e.to_string())
}

/// The timeout used when none is configured, in milliseconds.
pub const DEFAULT_TIMEOUT_MS: u64 = 30000;

/// The longest timeout accepted, in milliseconds (five minutes).
pub const MAX_TIMEOUT_MS: u64 = 300000;

/// Settings for connecting to the server.
#[derive(Debug, Clone)]
pub struct ClientConfig {
    /// WebSocket server URL.
    pub url: Option<String>,
    /// Authentication token.
    pub token: Option<String>,
    /// Request timeout in milliseconds.
    pub timeout_ms: Option<u64>,
}

/// Two optional strings hold the same text.
pub open spec fn same_text(a: Option<String>, b: Option<String>) -> bool {
    match (a, b) {
        (Some(x), Some(y)) => x@ == y@,
        (None, None) => true,
        _ => false,
    }
}

/// The message of the first rule the settings break, or `None`.
pub open spec fn client_violation(c: ClientConfig) -> Option<Seq<char>> {
    match c.url {
        Some(u) if url_parse_failure(u@) is Some => Some("Invalid URL format: "@ + url_parse_failure(u@).unwrap()),
        _ => match c.timeout_ms {
            Some(t) if t == 0 => Some("Timeout cannot be zero"@),
            Some(t) if t > MAX_TIMEOUT_MS => Some("Timeout cannot exceed 5 minutes"@),
            _ => None,
        },
    }
}

/// The timeout in effect.
pub open spec fn effective_timeout(c: ClientConfig) -> u64 {
    match c.timeout_ms {
        Some(t) => t,
        None => DEFAULT_TIMEOUT_MS,
    }
}

/// The summary text of the settings.
pub open spec fn summary_text(c: ClientConfig) -> Seq<char> {
    "URL: "@ + (match c.url { Some(u) => u@, None => "<not configured>"@ })
        + "\nToken: "@ + (if c.token is Some { "configured"@ } else { "not configured"@ })
        + "\nTimeout: "@ + decimal(effective_timeout(c) as nat) + "ms"@
}

impl Default for ClientConfig {
    fn default() -> (r: Self)
        ensures
            r.url is None,
            r.token is None,
            r.timeout_ms == Some(DEFAULT_TIMEOUT_MS),
    {
        ClientConfig { url: None, token: None, timeout_ms: Some(DEFAULT_TIMEOUT_MS) }
    }
}

impl ClientConfig {
    /// Settings with the defaults: no URL, no token, a 30 s timeout.
    pub fn new() -> (r: Self)
        ensures
            r.url is None,
            r.token is None,
            r.timeout_ms == Some(DEFAULT_TIMEOUT_MS),
    {
        Self::default()
    }

    /// Checks the settings: the URL must parse and the timeout must be
    /// between 1 ms and five minutes.
    pub fn validate(&self) -> (r: Result<(), ClientError>)
        ensures
            match client_violation(*self) {
                None => r is Ok,
                Some(m) => r matches Err(ClientError::Config { message }) && message@ == m,
            },
    {
        match &self.url {
            Some(u) => {
                match url_parse_error(u.as_str()) {
                    Some(e) => {
                        let mut v: Vec<char> = Vec::new();
                        append_str(&mut v, "Invalid URL format: ");
                        append_str(&mut v, e.as_str());
                        return Err(ClientError::config(chars_to_string(&v)));
                    },
                    None => {},
                }
            },
            None => {},
        }
        match self.timeout_ms {
            Some(t) => {
                if t == 0 {
                    return Err(ClientError::config(owned("Timeout cannot be zero")));
                }
                if t > MAX_TIMEOUT_MS {
                    return Err(ClientError::config(owned("Timeout cannot exceed 5 minutes")));
                }
            },
            None => {},
        }
        Ok(())
    }

    /// The URL, or an error when none is configured.
    pub fn get_url(&self) -> (r: Result<&str, ClientError>)
        ensures
            match self.url {
                Some(u) => r matches Ok(s) && s@ == u@,
                None => r matches Err(ClientError::Config { message }) && message@ == "No server URL configured"@,
            },
    {
        match &self.url {
            Some(u) => Ok(u.as_str()),
            None => Err(ClientError::config(owned("No server URL configured"))),
        }
    }

    /// The timeout in milliseconds (30 s when none is set).
    pub fn get_timeout_ms(&self) -> (r: u64)
        ensures
            r == effective_timeout(*self),
    {
        match self.timeout_ms {
            Some(t) => t,
            None => DEFAULT_TIMEOUT_MS,
        }
    }

    /// Whether a token is set.
    pub fn has_token(&self) -> (r: bool)
        ensures
            r == self.token is Some,
    {
        self.token.is_some()
    }

    /// The token, if set.
    pub fn get_token(&self) -> (r: Option<&str>)
        ensures
            match self.token {
                Some(t) => r matches Some(s) && s@ == t@,
                None => r is None,
            },
    {
        match &self.token {
            Some(t) => Some(t.as_str()),
            None => None,
        }
    }

    /// Sets the URL.
    pub fn set_url(&mut self, url: String)
        ensures
            final(self).url == Some(url),
            final(self).token == old(self).token,
            final(self).timeout_ms == old(self).timeout_ms,
    {
        self.url = Some(url);
    }

    /// Sets the token.
    pub fn set_token(&mut self, token: String)
        ensures
            final(self).token == Some(token),
            final(self).url == old(self).url,
            final(self).timeout_ms == old(self).timeout_ms,
    {
        self.token = Some(token);
    }

    /// Sets the timeout.
    pub fn set_timeout_ms(&mut self, timeout_ms: u64)
        ensures
            final(self).timeout_ms == Some(timeout_ms),
            final(self).url == old(self).url,
            final(self).token == old(self).token,
    {
        self.timeout_ms = Some(timeout_ms);
    }

    /// Removes the token.
    pub fn clear_token(&mut self)
        ensures
            final(self).token is None,
            final(self).url == old(self).url,
            final(self).timeout_ms == old(self).timeout_ms,
    {
        self.token = None;
    }

    /// A copy with the given URL and token in place of the configured ones.
    pub fn with_overrides(&self, url: Option<String>, token: Option<String>) -> (r: Self)
        ensures
            same_text(r.url, match url { Some(u) => Some(u), None => self.url }),
            same_text(r.token, match token { Some(t) => Some(t), None => self.token }),
            r.timeout_ms == self.timeout_ms,
    {
        let new_url = match url {
            Some(u) => Some(u),
            None => match &self.url {
                Some(u) => Some(owned(u.as_str())),
                None => None,
            },
        };
        let new_token = match token {
            Some(t) => Some(t),
            None => match &self.token {
                Some(t) => Some(owned(t.as_str())),
                None => None,
            },
        };
        ClientConfig { url: new_url, token: new_token, timeout_ms: self.timeout_ms }
    }

    /// Requests can be made once a URL is set.
    pub fn is_complete(&self) -> (r: bool)
        ensures
            r == self.url is Some,
    {
        self.url.is_some()
    }

    /// A summary of the settings for display.
    pub fn summary(&self) -> (r: String)
        ensures
            r@ == summary_text(*self),
    {
        let mut v: Vec<char> = Vec::new();
        append_str(&mut v, "URL: ");
        match &self.url {
            Some(u) => append_str(&mut v, u.as_str()),
            None => append_str(&mut v, "<not configured>"),
        }
        append_str(&mut v, "\nToken: ");
        if self.token.is_some() {
            append_str(&mut v, "configured");
        } else {
            append_str(&mut v, "not configured");
        }
        append_str(&mut v, "\nTimeout: ");
        let t = u64_to_decimal(self.get_timeout_ms());
        append_chars(&mut v, &t);
        append_str(&mut v, "ms");
        chars_to_string(&v)
    }

    /// The settings with the values of the environment variables
    /// (`CODEFLOW_BUDDY_URL`, `..._TOKEN`, `..._TIMEOUT`) put in place; a
    /// timeout that does not parse as a number is ignored.
    pub fn with_env(self, env_url: Option<String>, env_token: Option<String>, env_timeout: Option<String>) -> (r: Self)
        ensures
            r.url == (match env_url { Some(u) => Some(u), None => self.url }),
            r.token == (match env_token { Some(t) => Some(t), None => self.token }),
            r.timeout_ms == (match env_timeout {
                Some(t) => match parse_u64_spec(t@) {
                    Some(n) => Some(n),
                    None => self.timeout_ms,
                },
                None => self.timeout_ms,
            }),
    {
        let mut c = self;
        match env_url {
            Some(u) => c.url = Some(u),
            None => {},
        }
        match env_token {
            Some(t) => c.token = Some(t),
            None => {},
        }
        match env_timeout {
            Some(t) => {
                let tc = str_chars(t.as_str());
                assert(tc@.subrange(0, tc@.len() as int) =~= tc@);
                match parse_u64(&tc, 0) {
                    Some(n) => c.timeout_ms = Some(n),
                    None => {},
                }
            },
            None => {},
        }
        c
    }

    /// The configuration directory of the current user: `config_dir_in` of
    /// the home directory, which depends on the environment.
    pub fn config_dir() -> (r: Result<String, ClientError>)
        ensures
            exists|home: Option<Seq<char>>| #[trigger] Self::config_dir_answer(home, r),
    {
        let home = crate::client::discover::home_directory();
        let ghost h = Self::home_view(home);
        let r = Self::config_dir_in(home);
        assert(Self::config_dir_answer(h, r));
        r
    }

    /// The configuration file of the current user: `default_config_path_in`
    /// of the home directory, which depends on the environment.
    pub fn default_config_path() -> (r: Result<String, ClientError>)
        ensures
            exists|home: Option<Seq<char>>| #[trigger] Self::config_path_answer(home, r),
    {
        let home = crate::client::discover::home_directory();
        let ghost h = Self::home_view(home);
        let r = Self::default_config_path_in(home);
        assert(Self::config_path_answer(h, r));
        r
    }

    /// The text of a home directory, if there is one.
    pub open spec fn home_view(home: Option<String>) -> Option<Seq<char>> {
        match home {
            Some(x) => Some(x@),
            None => None,
        }
    }

    /// `r` is the configuration directory for the home directory `home`.
    pub open spec fn config_dir_answer(home: Option<Seq<char>>, r: Result<String, ClientError>) -> bool {
        match home {
            Some(h) => r matches Ok(p) && p@ == join_relative(h, ".codeflow-buddy"@),
            None => r matches Err(ClientError::Config { message }) && message@ == "Unable to determine home directory"@,
        }
    }

    /// `r` is the configuration file for the home directory `home`.
    pub open spec fn config_path_answer(home: Option<Seq<char>>, r: Result<String, ClientError>) -> bool {
        match home {
            Some(h) => r matches Ok(p) && p@ == join_relative(join_relative(h, ".codeflow-buddy"@), "config.json"@),
            None => r matches Err(ClientError::Config { message }) && message@ == "Unable to determine home directory"@,
        }
    }

    /// The configuration directory under the home directory.
    pub fn config_dir_in(home: Option<String>) -> (r: Result<String, ClientError>)
        ensures
            match home {
                Some(h) => r matches Ok(p) && p@ == join_relative(h@, ".codeflow-buddy"@),
                None => r matches Err(ClientError::Config { message }) && message@ == "Unable to determine home directory"@,
            },
    {
        match home {
            Some(h) => Ok(join_relative_path(h.as_str(), ".codeflow-buddy")),
            None => Err(ClientError::config(owned("Unable to determine home directory"))),
        }
    }

    /// The configuration file under the home directory.
    pub fn default_config_path_in(home: Option<String>) -> (r: Result<String, ClientError>)
        ensures
            match home {
                Some(h) => r matches Ok(p) && p@ == join_relative(join_relative(h@, ".codeflow-buddy"@), "config.json"@),
                None => r matches Err(ClientError::Config { message }) && message@ == "Unable to determine home directory"@,
            },
    {
        match Self::config_dir_in(home) {
            Ok(d) => Ok(join_relative_path(d.as_str(), "config.json")),
            Err(e) => Err(e),
        }
    }
}

/// Summary of the operations of a session.
#[derive(Debug, Clone)]
pub struct SessionReport {
    /// Number of successful operations.
    pub success_count: usize,
    /// Number of failed operations.
    pub failure_count: usize,
    /// Session duration in milliseconds.
    pub duration_ms: u64,
    /// Operations performed, in order.
    pub operations: Vec<String>,
    /// Errors met, in order.
    pub errors: Vec<String>,
}

impl SessionReport {
    /// The counts agree with the lists: every operation is counted once as a
    /// success or a failure, and every failure has its error.
    pub open spec fn wf(&self) -> bool {
        &&& self.success_count + self.failure_count == self.operations@.len()
        &&& self.failure_count == self.errors@.len()
    }
}

impl Default for SessionReport {
    fn default() -> (r: Self)
        ensures
            r.success_count == 0,
            r.failure_count == 0,
            r.duration_ms == 0,
            r.operations@.len() == 0,
            r.errors@.len() == 0,
    {
        SessionReport { success_count: 0, failure_count: 0, duration_ms: 0, operations: Vec::new(), errors: Vec::new() }
    }
}

impl SessionReport {
    /// An empty report.
    pub fn new() -> (r: Self)
        ensures
            r.wf(),
            r.success_count == 0,
            r.failure_count == 0,
            r.duration_ms == 0,
            r.operations@.len() == 0,
            r.errors@.len() == 0,
    {
        Self::default()
    }

    /// Records a successful operation.
    pub fn add_success(&mut self, operation: String)
        requires
            old(self).success_count < usize::MAX,
        ensures
            final(self).success_count == old(self).success_count + 1,
            final(self).failure_count == old(self).failure_count,
            final(self).operations@ == old(self).operations@.push(operation),
            final(self).errors@ == old(self).errors@,
            final(self).duration_ms == old(self).duration_ms,
            old(self).wf() ==> final(self).wf(),
    {
        self.success_count = self.success_count + 1;
        self.operations.push(operation);
    }

    /// Records a failed operation and its error.
    pub fn add_failure(&mut self, operation: String, error: String)
        requires
            old(self).failure_count < usize::MAX,
        ensures
            final(self).failure_count == old(self).failure_count + 1,
            final(self).success_count == old(self).success_count,
            final(self).operations@ == old(self).operations@.push(operation),
            final(self).errors@ == old(self).errors@.push(error),
            final(self).duration_ms == old(self).duration_ms,
            old(self).wf() ==> final(self).wf(),
    {
        self.failure_count = self.failure_count + 1;
        self.operations.push(operation);
        self.errors.push(error);
    }

    /// Sets the session duration.
    pub fn set_duration(&mut self, duration_ms: u64)
        ensures
            final(self).duration_ms == duration_ms,
            final(self).success_count == old(self).success_count,
            final(self).failure_count == old(self).failure_count,
            final(self).operations@ == old(self).operations@,
            final(self).errors@ == old(self).errors@,
    {
        self.duration_ms = duration_ms;
    }

    /// The number of operations recorded.
    pub fn total_operations(&self) -> (r: usize)
        requires
            self.success_count + self.failure_count <= usize::MAX,
        ensures
            r == self.success_count + self.failure_count,
    {
        self.success_count + self.failure_count
    }
}

/// A command of the command-line client.
#[derive(Debug, Clone)]
pub enum Commands {
    /// Connect to the server and run an interactive session.
    Connect { url: String, token: Option<String> },
    /// Send one request to the server.
    Request { url: String, method: String, params: Option<String>, token: Option<String> },
    /// Show the client's status and configuration.
    Status,
}

/// The arguments of the command-line client.
#[derive(Debug, Clone)]
pub struct CliArgs {
    /// The command to run.
    pub command: Commands,
    /// Debug output is on.
    pub debug: bool,
    /// Configuration file path.
    pub config: Option<String>,
}


/// Settings are accepted exactly when the URL, if any, parses and the timeout,
/// if any, lies between 1 ms and five minutes.
pub proof fn law_client_validation(c: ClientConfig)
    ensures
        client_violation(c) is None <==> (
            (match c.url { Some(u) => url_parse_failure(u@) is None, None => true })
            && (match c.timeout_ms { Some(t) => 1 <= t <= MAX_TIMEOUT_MS, None => true })
        ),
{
}

/// Without a configured timeout, the default of 30 s is used.
pub proof fn law_default_timeout(c: ClientConfig)
    requires
        c.timeout_ms is None,
    ensures
        effective_timeout(c) == DEFAULT_TIMEOUT_MS,
{
}

} // verus!
