//! Server configuration: its sections, their defaults, how loaded sections and
//! environment overrides are merged, and the validation every loaded
//! configuration must pass.

use vstd::prelude::*;
use crate::core_errors::CoreError;
use crate::text::{str_chars, chars_to_string, chars_eq_str, append_str};

verus! {

fn owned(t: &str) -> (s: String)
    ensures
        s@ == t@,
{
    chars_to_string(&str_chars(t))
}

/// Server-specific configuration.
#[derive(Debug, Clone)]
pub struct ServerConfig {
    /// Host to bind to.
    pub host: String,
    /// Port to bind to.
    pub port: u16,
    /// Maximum number of concurrent clients.
    pub max_clients: Option<usize>,
    /// Request timeout in milliseconds.
    pub timeout_ms: u64,
    /// TLS settings.
    pub tls: Option<TlsConfig>,
    /// Authentication settings.
    pub auth: Option<AuthConfig>,
}

/// TLS configuration.
#[derive(Debug, Clone)]
pub struct TlsConfig {
    /// Path to the certificate file.
    pub cert_path: String,
    /// Path to the private key file.
    pub key_path: String,
}

/// Authentication configuration.
#[derive(Debug, Clone)]
pub struct AuthConfig {
    /// Secret for signing tokens.
    pub jwt_secret: String,
    /// Token lifetime in seconds.
    pub jwt_expiry_seconds: u64,
    /// Token issuer.
    pub jwt_issuer: String,
    /// Token audience.
    pub jwt_audience: String,
}

/// Language-server configuration.
#[derive(Debug, Clone)]
pub struct LspConfig {
    /// The language servers.
    pub servers: Vec<LspServerConfig>,
    /// Default timeout of a language-server request in milliseconds.
    pub default_timeout_ms: u64,
    /// Start the servers ahead of use.
    pub enable_preload: bool,
}

/// One language server.
#[derive(Debug, Clone)]
pub struct LspServerConfig {
    /// File extensions the server handles.
    pub extensions: Vec<String>,
    /// Command that runs the server.
    pub command: Vec<String>,
    /// Working directory.
    pub root_dir: Option<String>,
    /// Restart interval in minutes.
    pub restart_interval: Option<u64>,
}

/// FUSE file-system configuration.
#[derive(Debug, Clone)]
pub struct FuseConfig {
    /// Mount point.
    pub mount_point: String,
    /// Mount read-only.
    pub read_only: bool,
    /// Cache timeout in seconds.
    pub cache_timeout_seconds: u64,
    /// Largest file cached, in bytes.
    pub max_file_size_bytes: u64,
}

/// Logging configuration.
#[derive(Debug, Clone)]
pub struct LoggingConfig {
    /// Log level (trace, debug, info, warn, error).
    pub level: String,
    /// Output format (json, pretty).
    pub format: String,
    /// File logging.
    pub file: Option<FileLoggingConfig>,
}

/// File logging configuration.
#[derive(Debug, Clone)]
pub struct FileLoggingConfig {
    /// Path of the log file.
    pub path: String,
    /// Largest log file in bytes.
    pub max_size_bytes: u64,
    /// Number of log files kept.
    pub max_files: usize,
}

/// Cache configuration.
#[derive(Debug, Clone)]
pub struct CacheConfig {
    /// Caching is on.
    pub enabled: bool,
    /// Size limit in bytes.
    pub max_size_bytes: u64,
    /// Entry lifetime in seconds.
    pub ttl_seconds: u64,
    /// Keep the cache on disk.
    pub persistent: bool,
    /// Directory of the persistent cache.
    pub cache_dir: Option<String>,
}

/// The whole application configuration.
#[derive(Debug, Clone)]
pub struct AppConfig {
    pub server: ServerConfig,
    pub lsp: LspConfig,
    pub fuse: Option<FuseConfig>,
    pub logging: LoggingConfig,
    pub cache: CacheConfig,
}

/// The views of a vector of strings.
pub open spec fn string_views(v: Seq<String>) -> Seq<Seq<char>> {
    v.map_values(|s: String| s@)
}

/// `s` is the default server section.
pub open spec fn default_server(s: ServerConfig) -> bool {
    &&& s.host@ == "127.0.0.1"@
    &&& s.port == 3000
    &&& s.max_clients == Some(10usize)
    &&& s.timeout_ms == 30000
    &&& s.tls is None
    &&& s.auth is None
}

/// `l` is one of the default language servers.
pub open spec fn server_entry(l: LspServerConfig, extensions: Seq<Seq<char>>, command: Seq<Seq<char>>, restart: u64) -> bool {
    &&& string_views(l.extensions@) == extensions
    &&& string_views(l.command@) == command
    &&& l.root_dir is None
    &&& l.restart_interval == Some(restart)
}

/// `l` is the default language-server section: TypeScript, Python and Go.
pub open spec fn default_lsp(l: LspConfig) -> bool {
    &&& l.servers@.len() == 4
    &&& server_entry(l.servers@[0], seq!["ts"@, "tsx"@, "js"@, "jsx"@],
        seq!["typescript-language-server"@, "--stdio"@], 10)
    &&& server_entry(l.servers@[1], seq!["py"@], seq!["pylsp"@], 5)
    &&& server_entry(l.servers@[2], seq!["go"@], seq!["gopls"@], 10)
    &&& server_entry(l.servers@[3], seq!["rs"@], seq!["rust-analyzer"@], 15)
    &&& l.default_timeout_ms == 5000
    &&& l.enable_preload
}

/// `l` is the default logging section.
pub open spec fn default_logging(l: LoggingConfig) -> bool {
    l.level@ == "info"@ && l.format@ == "pretty"@ && l.file is None
}

/// `c` is the default cache section.
pub open spec fn default_cache(c: CacheConfig) -> bool {
    &&& c.enabled
    &&& c.max_size_bytes == 256 * 1024 * 1024
    &&& c.ttl_seconds == 3600
    &&& !c.persistent
    &&& c.cache_dir is None
}

impl Default for ServerConfig {
    fn default() -> (r: Self)
        ensures
            default_server(r),
    {
        ServerConfig {
            host: owned("127.0.0.1"),
            port: 3000,
            max_clients: Some(10),
            timeout_ms: 30000,
            tls: None,
            auth: None,
        }
    }
}

fn strings(items: &[&str]) -> (r: Vec<String>)
    ensures
        string_views(r@) == items@.map_values(|s: &str| s@),
{
    let mut out: Vec<String> = Vec::new();
    let mut i: usize = 0;
    while i < items.len()
        invariant
            i <= items@.len(),
            string_views(out@) == items@.subrange(0, i as int).map_values(|s: &str| s@),
        decreases items@.len() - i,
    {
        let ghost o = string_views(out@);
        out.push(owned(items[i]));
        assert(string_views(out@) =~= o.push(items@[i as int]@));
        assert(items@.subrange(0, i + 1).map_values(|s: &str| s@)
            =~= items@.subrange(0, i as int).map_values(|s: &str| s@).push(items@[i as int]@));
        i = i + 1;
    }
    assert(items@.subrange(0, items@.len() as int) =~= items@);
    out
}

fn lsp_entry(extensions: &[&str], command: &[&str], restart: u64) -> (r: LspServerConfig)
    ensures
        string_views(r.extensions@) == extensions@.map_values(|s: &str| s@),
        string_views(r.command@) == command@.map_values(|s: &str| s@),
        r.root_dir is None,
        r.restart_interval == Some(restart),
{
    LspServerConfig {
        extensions: strings(extensions),
        command: strings(command),
        root_dir: None,
        restart_interval: Some(restart),
    }
}

impl Default for LspConfig {
    fn default() -> (r: Self)
        ensures
            default_lsp(r),
    {
        let ts = ["ts", "tsx", "js", "jsx"];
        let ts_cmd = ["typescript-language-server", "--stdio"];
        let py = ["py"];
        let py_cmd = ["pylsp"];
        let go = ["go"];
        let go_cmd = ["gopls"];
        let a = lsp_entry(&ts, &ts_cmd, 10);
        let b = lsp_entry(&py, &py_cmd, 5);
        let c = lsp_entry(&go, &go_cmd, 10);
        let rs = ["rs"];
        let rs_cmd = ["rust-analyzer"];
        let d = lsp_entry(&rs, &rs_cmd, 15);
        assert(rs@.map_values(|s: &str| s@) =~= seq!["rs"@]);
        assert(rs_cmd@.map_values(|s: &str| s@) =~= seq!["rust-analyzer"@]);
        assert(ts@.map_values(|s: &str| s@) =~= seq!["ts"@, "tsx"@, "js"@, "jsx"@]);
        assert(ts_cmd@.map_values(|s: &str| s@) =~= seq!["typescript-language-server"@, "--stdio"@]);
        assert(py@.map_values(|s: &str| s@) =~= seq!["py"@]);
        assert(py_cmd@.map_values(|s: &str| s@) =~= seq!["pylsp"@]);
        assert(go@.map_values(|s: &str| s@) =~= seq!["go"@]);
        assert(go_cmd@.map_values(|s: &str| s@) =~= seq!["gopls"@]);
        let mut servers: Vec<LspServerConfig> = Vec::new();
        servers.push(a);
        servers.push(b);
        servers.push(c);
        servers.push(d);
        LspConfig { servers, default_timeout_ms: 5000, enable_preload: true }
    }
}

impl Default for LoggingConfig {
    fn default() -> (r: Self)
        ensures
            default_logging(r),
    {
        LoggingConfig { level: owned("info"), format: owned("pretty"), file: None }
    }
}

impl Default for CacheConfig {
    fn default() -> (r: Self)
        ensures
            default_cache(r),
    {
        CacheConfig {
            enabled: true,
            max_size_bytes: 256 * 1024 * 1024,
            ttl_seconds: 3600,
            persistent: false,
            cache_dir: None,
        }
    }
}

impl Default for AppConfig {
    fn default() -> (r: Self)
        ensures
            default_server(r.server),
            default_lsp(r.lsp),
            r.fuse is None,
            default_logging(r.logging),
            default_cache(r.cache),
    {
        AppConfig {
            server: ServerConfig::default(),
            lsp: LspConfig::default(),
            fuse: None,
            logging: LoggingConfig::default(),
            cache: CacheConfig::default(),
        }
    }
}

/// The log levels a configuration may name.
pub open spec fn valid_level(l: Seq<char>) -> bool {
    l == "trace"@ || l == "debug"@ || l == "info"@ || l == "warn"@ || l == "error"@
}

/// The log formats a configuration may name.
pub open spec fn valid_format(f: Seq<char>) -> bool {
    f == "json"@ || f == "pretty"@
}

/// The index of the first language server with no extension or no command.
pub open spec fn first_bad_server(servers: Seq<LspServerConfig>, i: int) -> Option<int>
    decreases servers.len() - i,
{
    if i < 0 || i >= servers.len() {
        None
    } else if servers[i].extensions@.len() == 0 || servers[i].command@.len() == 0 {
        Some(i)
    } else {
        first_bad_server(servers, i + 1)
    }
}

/// The message of the first rule a configuration breaks, checked in order,
/// or `None` when it is valid.
pub open spec fn config_violation(c: AppConfig) -> Option<Seq<char>> {
    if c.server.port == 0 {
        Some("Server port cannot be 0"@)
    } else if c.server.timeout_ms == 0 {
        Some("Server timeout cannot be 0"@)
    } else if c.lsp.servers@.len() == 0 {
        Some("At least one LSP server must be configured"@)
    } else if first_bad_server(c.lsp.servers@, 0) is Some {
        let i = first_bad_server(c.lsp.servers@, 0).unwrap();
        if c.lsp.servers@[i].extensions@.len() == 0 {
            Some("LSP server must handle at least one extension"@)
        } else {
            Some("LSP server command cannot be empty"@)
        }
    } else if !valid_level(c.logging.level@) {
        Some("Invalid log level '"@ + c.logging.level@ + "', must be one of: trace, debug, info, warn, error"@)
    } else if !valid_format(c.logging.format@) {
        Some("Invalid log format '"@ + c.logging.format@ + "', must be one of: json, pretty"@)
    } else if c.cache.enabled && c.cache.max_size_bytes == 0 {
        Some("Cache max size cannot be 0 when cache is enabled"@)
    } else {
        None
    }
}

/// Each of the levels trace, debug, info, warn and error, and each of the
/// formats json and pretty, is accepted: a configuration that validates
/// still validates when its log level and format are changed to any of them.
pub proof fn law_listed_log_levels_validate(c: AppConfig, d: AppConfig)
    requires
        config_violation(c) is None,
        d.server == c.server,
        d.lsp == c.lsp,
        d.cache == c.cache,
        d.logging.level@ == "trace"@ || d.logging.level@ == "debug"@ || d.logging.level@ == "info"@
            || d.logging.level@ == "warn"@ || d.logging.level@ == "error"@,
        d.logging.format@ == "json"@ || d.logging.format@ == "pretty"@,
    ensures
        config_violation(d) is None,
{
}

/// Any other log level is refused: a configuration that validates, with its
/// level changed to one outside the list, fails with the message naming it.
pub proof fn law_unlisted_log_level_refused(c: AppConfig, d: AppConfig)
    requires
        config_violation(c) is None,
        d.server == c.server,
        d.lsp == c.lsp,
        d.cache == c.cache,
        d.logging.format == c.logging.format,
        d.logging.level@ != "trace"@ && d.logging.level@ != "debug"@ && d.logging.level@ != "info"@
            && d.logging.level@ != "warn"@ && d.logging.level@ != "error"@,
    ensures
        config_violation(d) == Some("Invalid log level '"@ + d.logging.level@
            + "', must be one of: trace, debug, info, warn, error"@),
{
}

/// The default configuration validates with any of the levels trace, debug,
/// info, warn and error.
pub proof fn law_default_config_validates_at_listed_levels(c: AppConfig)
    requires
        default_server(c.server),
        default_lsp(c.lsp),
        default_cache(c.cache),
        c.logging.format@ == "pretty"@,
        c.logging.level@ == "trace"@ || c.logging.level@ == "debug"@ || c.logging.level@ == "info"@
            || c.logging.level@ == "warn"@ || c.logging.level@ == "error"@,
    ensures
        config_violation(c) is None,
{
    reveal_strlit("ts");
    reveal_strlit("py");
    reveal_strlit("go");
    reveal_strlit("rs");
    reveal_strlit("typescript-language-server");
    reveal_strlit("pylsp");
    reveal_strlit("gopls");
    reveal_strlit("rust-analyzer");
    let s = c.lsp.servers@;
    assert forall|i: int| 0 <= i < 4 implies s[i].extensions@.len() != 0 && s[i].command@.len() != 0 by {
        assert(string_views(s[i].extensions@).len() == s[i].extensions@.len());
        assert(string_views(s[i].command@).len() == s[i].command@.len());
    }
    assert(first_bad_server(s, 4) is None);
    assert(first_bad_server(s, 3) is None);
    assert(first_bad_server(s, 2) is None);
    assert(first_bad_server(s, 1) is None);
    assert(first_bad_server(s, 0) is None);
}

impl AppConfig {
    /// Checks the configuration; the error names the first rule broken.
    #[verifier::loop_isolation(false)]
    pub fn validate(&self) -> (r: Result<(), CoreError>)
        ensures
            match config_violation(*self) {
                None => r is Ok,
                Some(m) => r matches Err(CoreError::Config { message }) && message@ == m,
            },
    {
        if self.server.port == 0 {
            return Err(CoreError::config(owned("Server port cannot be 0")));
        }
        if self.server.timeout_ms == 0 {
            return Err(CoreError::config(owned("Server timeout cannot be 0")));
        }
        if self.lsp.servers.len() == 0 {
            return Err(CoreError::config(owned("At least one LSP server must be configured")));
        }
        let ghost ss = self.lsp.servers@;
        let mut i: usize = 0;
        while i < self.lsp.servers.len()
            invariant
                i <= ss.len(),
                ss == self.lsp.servers@,
                first_bad_server(ss, 0) == first_bad_server(ss, i as int),
            decreases ss.len() - i,
        {
            let s = &self.lsp.servers[i];
            assert(first_bad_server(ss, i as int) == (if ss[i as int].extensions@.len() == 0 || ss[i as int].command@.len() == 0 {
                Some(i as int)
            } else {
                first_bad_server(ss, i + 1)
            }));
            if s.extensions.len() == 0 {
                return Err(CoreError::config(owned("LSP server must handle at least one extension")));
            }
            if s.command.len() == 0 {
                return Err(CoreError::config(owned("LSP server command cannot be empty")));
            }
            i = i + 1;
        }
        let level = str_chars(self.logging.level.as_str());
        if !(chars_eq_str(&level, "trace") || chars_eq_str(&level, "debug") || chars_eq_str(&level, "info")
            || chars_eq_str(&level, "warn") || chars_eq_str(&level, "error")) {
            let mut v: Vec<char> = Vec::new();
            append_str(&mut v, "Invalid log level '");
            append_str(&mut v, self.logging.level.as_str());
            append_str(&mut v, "', must be one of: trace, debug, info, warn, error");
            return Err(CoreError::config(chars_to_string(&v)));
        }
        let format = str_chars(self.logging.format.as_str());
        if !(chars_eq_str(&format, "json") || chars_eq_str(&format, "pretty")) {
            let mut v: Vec<char> = Vec::new();
            append_str(&mut v, "Invalid log format '");
            append_str(&mut v, self.logging.format.as_str());
            append_str(&mut v, "', must be one of: json, pretty");
            return Err(CoreError::config(chars_to_string(&v)));
        }
        if self.cache.enabled && self.cache.max_size_bytes == 0 {
            return Err(CoreError::config(owned("Cache max size cannot be 0 when cache is enabled")));
        }
        Ok(())
    }
}

/// The sections that a configuration file provided and that parsed.
#[derive(Debug, Clone)]
pub struct LoadedSections {
    pub server: Option<ServerConfig>,
    pub lsp: Option<LspConfig>,
    pub fuse: Option<FuseConfig>,
    pub logging: Option<LoggingConfig>,
    pub cache: Option<CacheConfig>,
}

/// The values that environment variables set when no file is found.
#[derive(Debug, Clone)]
pub struct EnvOverrides {
    pub port: Option<u16>,
    pub host: Option<String>,
    pub level: Option<String>,
    pub cache_enabled: Option<bool>,
}

/// The candidate configuration files, in the order they are looked for.
pub open spec fn config_file_candidates() -> Seq<Seq<char>> {
    seq![".codebuddy/config.json"@, ".codebuddy/config.toml"@, "codebuddy.json"@, "codebuddy.toml"@]
}

/// Format of a configuration file.
#[derive(Debug, Clone, Copy, PartialEq, Eq, Structural)]
pub enum ConfigFormat {
    Json,
    Toml,
}

/// The format of candidate `k`: JSON for the `.json` names, TOML otherwise.
pub open spec fn candidate_format(k: int) -> ConfigFormat {
    if k % 2 == 0 { ConfigFormat::Json } else { ConfigFormat::Toml }
}

/// The first candidate that exists (`present[k]` tells whether candidate `k`
/// does), with its format.
pub fn select_config_file(present: &Vec<bool>) -> (r: Option<(String, ConfigFormat)>)
    requires
        present@.len() == 4,
    ensures
        match r {
            Some((p, f)) => exists|k: int| #![trigger present@[k]] 0 <= k < 4 && present@[k]
                && (forall|j: int| 0 <= j < k ==> !present@[j])
                && p@ == config_file_candidates()[k] && f == candidate_format(k),
            None => forall|k: int| 0 <= k < 4 ==> !present@[k],
        },
{
    let names = [".codebuddy/config.json", ".codebuddy/config.toml", "codebuddy.json", "codebuddy.toml"];
    assert(names@.map_values(|s: &str| s@) =~= config_file_candidates());
    let mut i: usize = 0;
    while i < 4
        invariant
            i <= 4,
            present@.len() == 4,
            names@.map_values(|s: &str| s@) == config_file_candidates(),
            forall|j: int| 0 <= j < i ==> !present@[j],
        decreases 4 - i,
    {
        if present[i] {
            let f = if i % 2 == 0 { ConfigFormat::Json } else { ConfigFormat::Toml };
            assert(names@[i as int]@ == config_file_candidates()[i as int]);
            let name = owned(names[i]);
            assert(present@[i as int]);
            return Some((name, f));
        }
        i = i + 1;
    }
    None
}

impl AppConfig {
    /// The defaults with every section that a file provided put in place.
    pub fn with_sections(self, sections: LoadedSections) -> (r: AppConfig)
        ensures
            r.server == (match sections.server { Some(s) => s, None => self.server }),
            r.lsp == (match sections.lsp { Some(s) => s, None => self.lsp }),
            r.fuse == (match sections.fuse { Some(s) => Some(s), None => self.fuse }),
            r.logging == (match sections.logging { Some(s) => s, None => self.logging }),
            r.cache == (match sections.cache { Some(s) => s, None => self.cache }),
    {
        let mut c = self;
        match sections.server {
            Some(s) => { c.server = s; },
            None => {},
        }
        match sections.lsp {
            Some(s) => { c.lsp = s; },
            None => {},
        }
        match sections.fuse {
            Some(s) => { c.fuse = Some(s); },
            None => {},
        }
        match sections.logging {
            Some(s) => { c.logging = s; },
            None => {},
        }
        match sections.cache {
            Some(s) => { c.cache = s; },
            None => {},
        }
        c
    }

    /// The configuration with the environment overrides put in place.
    pub fn with_env_overrides(self, env: EnvOverrides) -> (r: AppConfig)
        ensures
            r.server.port == (match env.port { Some(p) => p, None => self.server.port }),
            r.server.host == (match env.host { Some(h) => h, None => self.server.host }),
            r.logging.level == (match env.level { Some(l) => l, None => self.logging.level }),
            r.cache.enabled == (match env.cache_enabled { Some(e) => e, None => self.cache.enabled }),
            r.server.max_clients == self.server.max_clients,
            r.server.timeout_ms == self.server.timeout_ms,
            r.server.tls == self.server.tls,
            r.server.auth == self.server.auth,
            r.lsp == self.lsp,
            r.fuse == self.fuse,
            r.logging.format == self.logging.format,
            r.logging.file == self.logging.file,
            r.cache.max_size_bytes == self.cache.max_size_bytes,
            r.cache.ttl_seconds == self.cache.ttl_seconds,
            r.cache.persistent == self.cache.persistent,
            r.cache.cache_dir == self.cache.cache_dir,
    {
        let mut c = self;
        match env.port {
            Some(p) => { c.server.port = p; },
            None => {},
        }
        match env.host {
            Some(h) => { c.server.host = h; },
            None => {},
        }
        match env.level {
            Some(l) => { c.logging.level = l; },
            None => {},
        }
        match env.cache_enabled {
            Some(e) => { c.cache.enabled = e; },
            None => {},
        }
        c
    }
}


/// The default configuration passes validation.
pub proof fn law_default_config_is_valid(c: AppConfig)
    requires
        default_server(c.server),
        default_lsp(c.lsp),
        default_logging(c.logging),
        default_cache(c.cache),
    ensures
        config_violation(c) is None,
{
    reveal_strlit("info");
    reveal_strlit("pretty");
    let ss = c.lsp.servers@;
    assert(string_views(ss[0].extensions@).len() == 4);
    assert(string_views(ss[0].command@).len() == 2);
    assert(ss[0].extensions@.len() == 4);
    assert(ss[0].command@.len() == 2);
    assert(string_views(ss[1].extensions@).len() == 1);
    assert(string_views(ss[1].command@).len() == 1);
    assert(string_views(ss[2].extensions@).len() == 1);
    assert(string_views(ss[2].command@).len() == 1);
    assert(ss[1].extensions@.len() == 1);
    assert(ss[1].command@.len() == 1);
    assert(ss[2].extensions@.len() == 1);
    assert(ss[2].command@.len() == 1);
    assert(string_views(ss[3].extensions@).len() == 1);
    assert(string_views(ss[3].command@).len() == 1);
    assert(ss[3].extensions@.len() == 1);
    assert(ss[3].command@.len() == 1);
    assert(first_bad_server(ss, 4) is None);
    assert(first_bad_server(ss, 3) is None);
    assert(first_bad_server(ss, 2) is None);
    assert(first_bad_server(ss, 1) is None);
    assert(first_bad_server(ss, 0) is None);
}

} // verus!
