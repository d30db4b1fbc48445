use codebuddy::app_config::{select_config_file, AppConfig, ConfigFormat, EnvOverrides, LoadedSections, LspConfig};
use codebuddy::client::discover::settle_sources;
use codebuddy::client::merge::merge_with_args;
use codebuddy::client::validate::{client_config, is_complete, missing_items, suggestions};
use codebuddy::client::{ClientConfig, ClientError, SessionReport};
use codebuddy::core_errors::CoreError;
use codebuddy::presets::{add_preset, get_preset, get_presets, list_preset_ids, ExternalMcpServerConfig};

#[test]
fn test_config_validation() {
    let mut config = ClientConfig::new();
    assert!(config.validate().is_ok());
    config.set_url("invalid-url".to_string());
    assert!(config.validate().is_err());
    config.set_url("ws://localhost:3000".to_string());
    assert!(config.validate().is_ok());
    config.set_timeout_ms(0);
    assert!(config.validate().is_err());
    config.set_timeout_ms(400_000);
    assert!(config.validate().is_err());
}

#[test]
fn client_validation_messages() {
    let mut config = ClientConfig::new();
    config.set_timeout_ms(0);
    match config.validate() {
        Err(ClientError::Config { message }) => assert_eq!(message, "Timeout cannot be zero"),
        _ => panic!("expected a config error"),
    }
    config.set_timeout_ms(300_001);
    match config.validate() {
        Err(ClientError::Config { message }) => assert_eq!(message, "Timeout cannot exceed 5 minutes"),
        _ => panic!("expected a config error"),
    }
    config.set_timeout_ms(300_000);
    assert!(config.validate().is_ok());
    config.set_url("not a url".to_string());
    match config.validate() {
        Err(ClientError::Config { message }) => assert!(message.starts_with("Invalid URL format: ")),
        _ => panic!("expected a URL error"),
    }
}

#[test]
fn test_config_overrides() {
    let mut base_config = ClientConfig::new();
    base_config.set_url("ws://localhost:3000".to_string());
    base_config.set_token("base-token".to_string());
    let overridden = base_config.with_overrides(Some("ws://example.com:4000".to_string()), Some("override-token".to_string()));
    assert_eq!(overridden.url, Some("ws://example.com:4000".to_string()));
    assert_eq!(overridden.token, Some("override-token".to_string()));
    assert_eq!(base_config.url, Some("ws://localhost:3000".to_string()));
    assert_eq!(base_config.token, Some("base-token".to_string()));
    let kept = base_config.with_overrides(None, None);
    assert_eq!(kept.url, base_config.url);
    assert_eq!(kept.token, base_config.token);
}

#[test]
fn client_accessors_and_summary() {
    let mut c = ClientConfig::new();
    assert_eq!(c.get_timeout_ms(), 30000);
    assert!(!c.has_token());
    assert!(c.get_url().is_err());
    assert_eq!(c.summary(), "URL: <not configured>\nToken: not configured\nTimeout: 30000ms");
    c.set_token("t".to_string());
    assert!(c.has_token());
    assert_eq!(c.get_token(), Some("t"));
    c.clear_token();
    assert!(!c.has_token());
    assert_eq!(c.get_token(), None);
    c.set_url("ws://h:1".to_string());
    c.timeout_ms = None;
    assert_eq!(c.get_url().unwrap(), "ws://h:1");
    assert_eq!(c.summary(), "URL: ws://h:1\nToken: not configured\nTimeout: 30000ms");
    assert!(c.is_complete());
}

#[test]
fn client_env_and_paths() {
    let c = ClientConfig::new().with_env(Some("ws://e:1".to_string()), None, Some("15000".to_string()));
    assert_eq!(c.url, Some("ws://e:1".to_string()));
    assert_eq!(c.timeout_ms, Some(15000));
    let d = ClientConfig::new().with_env(None, None, Some("soon".to_string()));
    assert_eq!(d.timeout_ms, Some(30000));
    assert_eq!(ClientConfig::default_config_path_in(Some("/home/u".to_string())).unwrap(), "/home/u/.codeflow-buddy/config.json");
    assert_eq!(ClientConfig::config_dir_in(Some("/home/u/".to_string())).unwrap(), "/home/u/.codeflow-buddy");
    assert!(ClientConfig::config_dir_in(None).is_err());
}

#[test]
fn test_merge_with_args() {
    let mut config = ClientConfig::new();
    config.set_url("ws://localhost:3000".to_string());
    let merged = merge_with_args(config, Some("ws://example.com:4000".to_string()), Some("test-token".to_string()), Some(60000));
    assert_eq!(merged.url, Some("ws://example.com:4000".to_string()));
    assert_eq!(merged.token, Some("test-token".to_string()));
    assert_eq!(merged.timeout_ms, Some(60000));
}

#[test]
fn test_validation() {
    let mut config = ClientConfig::new();
    config.set_url("ws://localhost:3000".to_string());
    assert!(client_config(&config).is_ok());
    let empty_config = ClientConfig::new();
    assert!(client_config(&empty_config).is_ok());
}

#[test]
fn test_missing_items() {
    let config = ClientConfig::new();
    let missing = missing_items(&config);
    assert!(missing.contains(&"Server URL".to_string()));
}

#[test]
fn test_suggestions() {
    let config = ClientConfig::new();
    let suggestions = suggestions(&config);
    assert!(!suggestions.is_empty());
}

#[test]
fn validate_helpers_complete_config() {
    let mut config = ClientConfig::new();
    config.set_url("ws://a:1".to_string());
    config.set_token("x".to_string());
    assert!(is_complete(&config));
    assert!(missing_items(&config).is_empty());
    assert!(suggestions(&config).is_empty());
    assert_eq!(suggestions(&ClientConfig::new()).len(), 2);
}

#[test]
fn settle_sources_priority() {
    let file = ClientConfig { url: Some("ws://file:1".to_string()), token: None, timeout_ms: Some(1000) };
    let c = settle_sources(file, Some("ws://env:1".to_string()), Some("env-token".to_string()), Some("2000".to_string()),
        Some("ws://cli:1".to_string()), None, None).unwrap();
    assert_eq!(c.url, Some("ws://cli:1".to_string()));
    assert_eq!(c.token, Some("env-token".to_string()));
    assert_eq!(c.timeout_ms, Some(2000));
    let bad = ClientConfig::new();
    assert!(settle_sources(bad, None, None, None, None, None, Some(0)).is_err());
}

#[test]
fn session_report_counts() {
    let mut r = SessionReport::new();
    r.add_success("open".to_string());
    r.add_failure("save".to_string(), "disk full".to_string());
    r.add_success("close".to_string());
    r.set_duration(25);
    assert_eq!(r.total_operations(), 3);
    assert_eq!(r.total_operations(), r.operations.len());
    assert_eq!(r.failure_count, r.errors.len());
    assert_eq!(r.operations, vec!["open".to_string(), "save".to_string(), "close".to_string()]);
    assert_eq!(r.duration_ms, 25);
}

#[test]
fn app_config_defaults_validate() {
    let c = AppConfig::default();
    assert!(c.validate().is_ok());
    assert_eq!(c.server.host, "127.0.0.1");
    assert_eq!(c.server.port, 3000);
    assert_eq!(c.lsp.servers.len(), 4);
    assert_eq!(c.lsp.servers[0].command, vec!["typescript-language-server".to_string(), "--stdio".to_string()]);
    assert_eq!(c.cache.max_size_bytes, 256 * 1024 * 1024);
    assert_eq!(LspConfig::default().default_timeout_ms, 5000);
}

#[test]
fn app_config_violations() {
    let mut c = AppConfig::default();
    c.server.port = 0;
    match c.validate() {
        Err(CoreError::Config { message }) => assert_eq!(message, "Server port cannot be 0"),
        _ => panic!("expected a config error"),
    }
    let mut c = AppConfig::default();
    c.logging.level = "loud".to_string();
    match c.validate() {
        Err(CoreError::Config { message }) => {
            assert_eq!(message, "Invalid log level 'loud', must be one of: trace, debug, info, warn, error")
        }
        _ => panic!("expected a config error"),
    }
    let mut c = AppConfig::default();
    c.lsp.servers[1].command.clear();
    match c.validate() {
        Err(CoreError::Config { message }) => assert_eq!(message, "LSP server command cannot be empty"),
        _ => panic!("expected a config error"),
    }
    let mut c = AppConfig::default();
    c.cache.max_size_bytes = 0;
    assert!(c.validate().is_err());
    c.cache.enabled = false;
    assert!(c.validate().is_ok());
}

#[test]
fn app_config_merging() {
    let base = AppConfig::default();
    let sections = LoadedSections { server: None, lsp: None, fuse: None, logging: None, cache: None };
    let same = base.clone().with_sections(sections);
    assert_eq!(same.server.port, 3000);
    let env = EnvOverrides { port: Some(8080), host: None, level: Some("debug".to_string()), cache_enabled: Some(false) };
    let c = base.with_env_overrides(env);
    assert_eq!(c.server.port, 8080);
    assert_eq!(c.server.host, "127.0.0.1");
    assert_eq!(c.logging.level, "debug");
    assert!(!c.cache.enabled);
    assert_eq!(select_config_file(&vec![false, true, true, false]), Some((".codebuddy/config.toml".to_string(), ConfigFormat::Toml)));
    assert_eq!(select_config_file(&vec![false, false, false, false]), None);
}

#[test]
fn presets_builtin() {
    let all = get_presets();
    assert_eq!(all.len(), 3);
    let ids = list_preset_ids();
    assert_eq!(ids, vec!["context7".to_string(), "git".to_string(), "filesystem".to_string()]);
    let git = get_preset("git").unwrap();
    assert_eq!(git.name, "Git MCP");
    assert_eq!(git.command.last().unwrap(), "@modelcontextprotocol/server-git");
    assert!(get_preset("svn").is_none());
    let fs = get_preset("filesystem").unwrap();
    assert_eq!(fs.command.len(), 4);
    assert!(fs.auto_start);
}

#[test]
fn presets_added_once() {
    let mut servers: Vec<ExternalMcpServerConfig> = Vec::new();
    let (added, name) = add_preset(&mut servers, "git").unwrap();
    assert!(added);
    assert_eq!(name, "Git MCP");
    assert_eq!(servers.len(), 1);
    assert_eq!(servers[0].name, "git");
    assert_eq!(servers[0].command, vec!["npx", "-y", "@modelcontextprotocol/server-git"]);
    assert!(servers[0].env.is_none());
    assert!(servers[0].auto_start);
    let (again, _) = add_preset(&mut servers, "git").unwrap();
    assert!(!again);
    assert_eq!(servers.len(), 1);
    assert!(add_preset(&mut servers, "context7").unwrap().0);
    assert_eq!(servers.len(), 2);
    assert_eq!(
        add_preset(&mut servers, "nope").unwrap_err(),
        "Preset 'nope' not found. Run 'codebuddy mcp list' to see available presets."
    );
    assert_eq!(servers.len(), 2);
}

#[test]
fn test_rust_config_validation() {
    let config = AppConfig::default();
    let rust_server = config.lsp.servers.iter().find(|server| server.extensions.contains(&"rs".to_string()));
    assert!(rust_server.is_some(), "Rust LSP server not found in default config");
    let rust_server = rust_server.unwrap();
    assert_eq!(rust_server.command, vec!["rust-analyzer"]);
    assert_eq!(rust_server.restart_interval, Some(15));
    let all_extensions: Vec<String> = config.lsp.servers.iter().flat_map(|server| server.extensions.clone()).collect();
    assert!(all_extensions.contains(&"rs".to_string()));
    assert!(all_extensions.contains(&"ts".to_string()));
    assert!(all_extensions.contains(&"py".to_string()));
    assert!(all_extensions.contains(&"go".to_string()));
}
