use codex_discord_gateway::config::{
    config_path, resolve, AppConfig, ConfigError, ConfigPath, Environment,
};

fn some(value: &str) -> Option<String> {
    Some(value.to_string())
}

fn no_environment() -> Environment {
    Environment {
        discord_token: None,
        codex_bin: None,
        codex_default_model: None,
        codex_cwd: None,
        codex_inherit_stderr: false,
    }
}

#[test]
fn codex_home_comes_first() {
    assert_eq!(
        config_path(some("/c"), some("/h")),
        Ok(ConfigPath {
            directory: "/c".to_string(),
            components: vec!["config.discord-gateway.toml".to_string()],
        })
    );
    assert_eq!(
        config_path(None, some("/h")),
        Ok(ConfigPath {
            directory: "/h".to_string(),
            components: vec![".codex".to_string(), "config.discord-gateway.toml".to_string()],
        })
    );
    assert_eq!(config_path(None, None), Err(ConfigError::MissingHome));
    assert_eq!(
        ConfigError::MissingHome.message(),
        "CODEX_HOME or HOME is required to locate config"
    );
}

#[test]
fn a_token_is_required() {
    let error = resolve(no_environment(), AppConfig::default(), "1").unwrap_err();
    assert_eq!(error, ConfigError::MissingToken);
    assert_eq!(
        error.message(),
        "discord token is required in DISCORD_TOKEN or config.discord-gateway.toml"
    );
}

#[test]
fn defaults() {
    let config = AppConfig { discord_token: some("t"), ..AppConfig::default() };
    let settings = resolve(no_environment(), config, "1.2.3").unwrap();
    assert_eq!(settings.discord_token, "t");
    assert_eq!(settings.gateway.codex_bin, "codex");
    assert_eq!(settings.gateway.default_model, "gpt-5.4-mini");
    assert_eq!(settings.gateway.default_cwd, None);
    assert!(!settings.gateway.inherit_stderr);
    assert_eq!(settings.gateway.client_name, "codex_discord_gateway");
    assert_eq!(settings.gateway.client_title, some("Codex Discord Gateway"));
    assert_eq!(settings.gateway.client_version, "1.2.3");
    assert_eq!(settings.gateway.service_name, some("discord"));
}

#[test]
fn the_environment_overrides_the_file() {
    let file = || AppConfig {
        discord_token: some("file token"),
        codex_bin: some("file bin"),
        default_model: some("file model"),
        cwd: some("file cwd"),
        inherit_stderr: false,
        ..AppConfig::default()
    };
    let settings = resolve(no_environment(), file(), "").unwrap();
    assert_eq!(settings.gateway.codex_bin, "file bin");
    assert_eq!(settings.gateway.default_model, "file model");
    assert_eq!(settings.gateway.default_cwd, some("file cwd"));
    let environment = Environment {
        discord_token: some("env token"),
        codex_bin: some("env bin"),
        codex_default_model: some("env model"),
        codex_cwd: some("env cwd"),
        codex_inherit_stderr: true,
    };
    let settings = resolve(environment, file(), "").unwrap();
    assert_eq!(settings.discord_token, "env token");
    assert_eq!(settings.gateway.codex_bin, "env bin");
    assert_eq!(settings.gateway.default_model, "env model");
    assert_eq!(settings.gateway.default_cwd, some("env cwd"));
    assert!(settings.gateway.inherit_stderr);
}
