use std::collections::HashMap;
use std::path::PathBuf;
use vargos_cli::config::manager::ConfigManager;
use vargos_cli::config::types::{Config, Theme};

fn stored() -> Config {
    let mut settings = HashMap::new();
    settings.insert("accent".to_string(), "blue".to_string());
    Config {
        mastra_url: "http://example.test:9000".to_string(),
        default_agent: Some("helper".to_string()),
        default_session: Some("session-1".to_string()),
        theme: Some(Theme { settings }),
    }
}

#[test]
fn default_config_points_at_this_machine() {
    let config = Config::default();
    assert_eq!(config.mastra_url, "http://localhost:4862");
    assert!(config.default_agent.is_none());
    assert!(config.default_session.is_none());
    assert!(config.theme.is_none());
}

#[test]
fn overrides_replace_address_and_agent_only() {
    let config = stored().with_overrides(Some("http://env.test".to_string()), Some("envoy".to_string()));
    assert_eq!(config.mastra_url, "http://env.test");
    assert_eq!(config.default_agent.as_deref(), Some("envoy"));
    assert_eq!(config.default_session.as_deref(), Some("session-1"));
    assert_eq!(config.theme.unwrap().settings.get("accent").map(|s| s.as_str()), Some("blue"));
}

#[test]
fn absent_overrides_change_nothing() {
    let config = stored().with_overrides(None, None);
    assert_eq!(config.mastra_url, "http://example.test:9000");
    assert_eq!(config.default_agent.as_deref(), Some("helper"));
    assert_eq!(config.default_session.as_deref(), Some("session-1"));
    assert!(config.theme.is_some());
}

#[test]
fn each_override_stands_alone() {
    let config = stored().with_overrides(Some("http://env.test".to_string()), None);
    assert_eq!(config.mastra_url, "http://env.test");
    assert_eq!(config.default_agent.as_deref(), Some("helper"));
    let config = stored().with_overrides(None, Some("envoy".to_string()));
    assert_eq!(config.mastra_url, "http://example.test:9000");
    assert_eq!(config.default_agent.as_deref(), Some("envoy"));
    let mut bare = stored();
    bare.default_agent = None;
    assert_eq!(bare.with_overrides(None, Some("envoy".to_string())).default_agent.as_deref(), Some("envoy"));
}

#[test]
fn manager_keeps_its_path() {
    let path = PathBuf::from("/tmp/somewhere/config.yaml");
    let manager = ConfigManager::with_path(path.clone());
    assert_eq!(manager.config_path(), &path);
}

#[test]
fn load_of_a_stored_config_applies_the_environment() {
    let manager = ConfigManager::with_path(PathBuf::from("config.yaml"));
    let loaded = manager.load(Some(stored()), Some("http://env.test".to_string()), None);
    assert!(!loaded.created);
    assert_eq!(loaded.config.mastra_url, "http://env.test");
    assert_eq!(loaded.config.default_agent.as_deref(), Some("helper"));
    assert_eq!(loaded.config.default_session.as_deref(), Some("session-1"));
    assert!(loaded.config.theme.is_some());
}

#[test]
fn load_without_a_stored_config_creates_the_defaults() {
    let manager = ConfigManager::with_path(PathBuf::from("config.yaml"));
    let loaded = manager.load(None, Some("http://env.test".to_string()), Some("envoy".to_string()));
    assert!(loaded.created);
    assert_eq!(loaded.config.mastra_url, "http://localhost:4862");
    assert!(loaded.config.default_agent.is_none());
    assert!(loaded.config.default_session.is_none());
    assert!(loaded.config.theme.is_none());
}

#[test]
fn configuration_names_are_fixed() {
    assert_eq!(vargos_cli::config::manager::CONFIG_DIRECTORY, "vargos-cli");
    assert_eq!(vargos_cli::config::manager::CONFIG_FILE, "config.yaml");
    assert_eq!(vargos_cli::config::manager::MASTRA_URL_VARIABLE, "VARGOS_CLI_MASTRA_URL");
    assert_eq!(vargos_cli::config::manager::AGENT_VARIABLE, "VARGOS_CLI_AGENT");
}
