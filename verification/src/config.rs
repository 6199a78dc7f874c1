//! Where the configuration is, and what follows from it and the environment.
use vstd::prelude::*;
use crate::visibility::VisibilityConfig;

verus! {

/// The name of the configuration file.
pub const CONFIG_FILE: &'static str = "config.discord-gateway.toml";

/// The model that is used where none is configured.
pub const DEFAULT_MODEL: &'static str = "gpt-5.4-mini";

/// What the configuration file says.
#[derive(Debug)]
pub struct AppConfig {
    pub discord_token: Option<String>,
    pub codex_bin: Option<String>,
    pub default_model: Option<String>,
    pub cwd: Option<String>,
    pub inherit_stderr: bool,
    pub visibility: VisibilityConfig,
}

impl Default for AppConfig {
    fn default() -> (config: AppConfig)
        ensures
            config.discord_token is None,
            config.codex_bin is None,
            config.default_model is None,
            config.cwd is None,
            !config.inherit_stderr,
            config.visibility.dm_allow_users@.len() == 0,
            config.visibility.channels@.len() == 0,
    {
        AppConfig {
            discord_token: None,
            codex_bin: None,
            default_model: None,
            cwd: None,
            inherit_stderr: false,
            visibility: VisibilityConfig::default(),
        }
    }
}

/// The environment variables that override the configuration. Of the last one
/// only matters whether it is set.
#[derive(Debug)]
pub struct Environment {
    pub discord_token: Option<String>,
    pub codex_bin: Option<String>,
    pub codex_default_model: Option<String>,
    pub codex_cwd: Option<String>,
    pub codex_inherit_stderr: bool,
}

/// How Codex is started.
#[derive(Debug, PartialEq, Eq)]
pub struct GatewayConfig {
    pub default_model: String,
    pub codex_bin: String,
    pub default_cwd: Option<String>,
    pub inherit_stderr: bool,
    pub client_name: String,
    pub client_title: Option<String>,
    pub client_version: String,
    pub service_name: Option<String>,
}

/// With what the gateway starts.
#[derive(Debug)]
pub struct Settings {
    pub discord_token: String,
    pub gateway: GatewayConfig,
    pub visibility: VisibilityConfig,
}

/// Why the gateway cannot start.
#[derive(Debug, Clone, Copy, PartialEq, Eq, Structural)]
pub enum ConfigError {
    /// There is no token for Discord.
    MissingToken,
    /// There is no directory in which to look for the configuration.
    MissingHome,
}

impl ConfigError {
    /// How the error is told to the user.
    pub fn message(self) -> (r: &'static str)
        ensures
            r@ == (match self {
                ConfigError::MissingToken =>
                    "discord token is required in DISCORD_TOKEN or config.discord-gateway.toml"@,
                ConfigError::MissingHome => "CODEX_HOME or HOME is required to locate config"@,
            }),
    {
        match self {
            ConfigError::MissingToken =>
                "discord token is required in DISCORD_TOKEN or config.discord-gateway.toml",
            ConfigError::MissingHome => "CODEX_HOME or HOME is required to locate config",
        }
    }
}

/// A file: the components are joined to the directory one after the other.
#[derive(Debug, PartialEq, Eq)]
pub struct ConfigPath {
    pub directory: String,
    pub components: Vec<String>,
}

/// Finds the configuration file: in `CODEX_HOME`, or in `.codex` under `HOME`
/// where that is not set.
pub fn config_path(codex_home: Option<String>, home: Option<String>) -> (r: Result<
    ConfigPath,
    ConfigError,
>)
    ensures
        match (codex_home, home) {
            (Some(dir), _) => r matches Ok(path) && path.directory@ == dir@
                && path.components.deep_view() == seq![CONFIG_FILE@],
            (None, Some(dir)) => r matches Ok(path) && path.directory@ == dir@
                && path.components.deep_view() == seq![".codex"@, CONFIG_FILE@],
            (None, None) => r == Err::<ConfigPath, _>(ConfigError::MissingHome),
        },
{
    let mut components: Vec<String> = Vec::new();
    if let Some(directory) = codex_home {
        components.push(CONFIG_FILE.to_owned());
        assert(components.deep_view() =~= seq![CONFIG_FILE@]);
        return Ok(ConfigPath { directory, components });
    }
    match home {
        Some(directory) => {
            components.push(".codex".to_owned());
            components.push(CONFIG_FILE.to_owned());
            assert(components.deep_view() =~= seq![".codex"@, CONFIG_FILE@]);
            Ok(ConfigPath { directory, components })
        },
        None => Err(ConfigError::MissingHome),
    }
}

/// `first`, or `second` where that is not given.
pub open spec fn either(first: Option<Seq<char>>, second: Option<Seq<char>>) -> Option<Seq<char>> {
    if first is Some {
        first
    } else {
        second
    }
}

/// What is chosen, or `default` where nothing is.
pub open spec fn or_default(choice: Option<Seq<char>>, default: Seq<char>) -> Seq<char> {
    match choice {
        Some(value) => value,
        None => default,
    }
}

/// What the settings are to be for an environment and a configuration with a
/// token.
pub open spec fn settings_follow(
    settings: Settings,
    env: Environment,
    config: AppConfig,
    version: Seq<char>,
) -> bool {
    &&& Some(settings.discord_token@) == either(
        env.discord_token.deep_view(),
        config.discord_token.deep_view(),
    )
    &&& settings.gateway.codex_bin@ == or_default(
        either(env.codex_bin.deep_view(), config.codex_bin.deep_view()),
        "codex"@,
    )
    &&& settings.gateway.default_model@ == or_default(
        either(env.codex_default_model.deep_view(), config.default_model.deep_view()),
        DEFAULT_MODEL@,
    )
    &&& settings.gateway.default_cwd.deep_view() == either(
        env.codex_cwd.deep_view(),
        config.cwd.deep_view(),
    )
    &&& settings.gateway.inherit_stderr == (env.codex_inherit_stderr || config.inherit_stderr)
    &&& settings.gateway.client_name@ == "codex_discord_gateway"@
    &&& settings.gateway.client_title.deep_view() == Some("Codex Discord Gateway"@)
    &&& settings.gateway.client_version@ == version
    &&& settings.gateway.service_name.deep_view() == Some("discord"@)
    &&& settings.visibility == config.visibility
}

/// `first`, or `second` where that is not given.
fn pick(first: Option<String>, second: Option<String>) -> (r: Option<String>)
    ensures
        r.deep_view() == either(first.deep_view(), second.deep_view()),
{
    if first.is_some() {
        first
    } else {
        second
    }
}

/// What is chosen, or `default` where nothing is.
fn pick_or(choice: Option<String>, default: &str) -> (r: String)
    ensures
        r@ == or_default(choice.deep_view(), default@),
{
    match choice {
        Some(value) => value,
        None => default.to_owned(),
    }
}

/// Settles with what the gateway starts. The environment comes before the
/// configuration, and that before the defaults.
pub fn resolve(env: Environment, config: AppConfig, version: &str) -> (r: Result<
    Settings,
    ConfigError,
>)
    ensures
        match r {
            Ok(settings) => settings_follow(settings, env, config, version@),
            Err(error) => error == ConfigError::MissingToken && env.discord_token is None
                && config.discord_token is None,
        },
{
    let discord_token = match pick(env.discord_token, config.discord_token) {
        Some(token) => token,
        None => {
            return Err(ConfigError::MissingToken);
        },
    };
    let codex_bin = pick_or(pick(env.codex_bin, config.codex_bin), "codex");
    let default_model = pick_or(
        pick(env.codex_default_model, config.default_model),
        DEFAULT_MODEL,
    );
    let default_cwd = pick(env.codex_cwd, config.cwd);
    let inherit_stderr = env.codex_inherit_stderr || config.inherit_stderr;
    Ok(
        Settings {
            discord_token,
            gateway: GatewayConfig {
                default_model,
                codex_bin,
                default_cwd,
                inherit_stderr,
                client_name: "codex_discord_gateway".to_owned(),
                client_title: Some("Codex Discord Gateway".to_owned()),
                client_version: version.to_owned(),
                service_name: Some("discord".to_owned()),
            },
            visibility: config.visibility,
        },
    )
}

/// What the environment sets is used, whatever the configuration says.
pub proof fn law_environment_overrides(
    settings: Settings,
    env: Environment,
    config: AppConfig,
    version: Seq<char>,
)
    requires
        settings_follow(settings, env, config, version),
    ensures
        env.discord_token matches Some(token) ==> settings.discord_token@ == token@,
        env.codex_bin matches Some(bin) ==> settings.gateway.codex_bin@ == bin@,
        env.codex_default_model matches Some(model) ==> settings.gateway.default_model@ == model@,
        env.codex_cwd matches Some(cwd) ==> settings.gateway.default_cwd.deep_view() == Some(cwd@),
        env.codex_inherit_stderr ==> settings.gateway.inherit_stderr,
{
}

/// Where the environment sets nothing, what the configuration says is used; and where
/// that says nothing either, the defaults are. No value comes from anywhere else.
pub proof fn law_configuration_and_defaults(
    settings: Settings,
    env: Environment,
    config: AppConfig,
    version: Seq<char>,
)
    requires
        settings_follow(settings, env, config, version),
    ensures
        env.discord_token is None ==> (config.discord_token matches Some(token)
            && settings.discord_token@ == token@),
        env.codex_bin is None ==> settings.gateway.codex_bin@ == (match config.codex_bin {
            Some(bin) => bin@,
            None => "codex"@,
        }),
        env.codex_default_model is None ==> settings.gateway.default_model@ == (
        match config.default_model {
            Some(model) => model@,
            None => "gpt-5.4-mini"@,
        }),
        env.codex_cwd is None ==> (match config.cwd {
            Some(cwd) => settings.gateway.default_cwd matches Some(c) && c@ == cwd@,
            None => settings.gateway.default_cwd is None,
        }),
        settings.gateway.inherit_stderr <==> env.codex_inherit_stderr || config.inherit_stderr,
{
}

/// Codex is told who asks: the same name, title and service in any configuration, and
/// the version of the program. Who may be read is what the configuration says.
pub proof fn law_identity_and_visibility(
    settings: Settings,
    env: Environment,
    config: AppConfig,
    version: Seq<char>,
)
    requires
        settings_follow(settings, env, config, version),
    ensures
        settings.gateway.client_name@ == "codex_discord_gateway"@,
        settings.gateway.client_title matches Some(title) && title@ == "Codex Discord Gateway"@,
        settings.gateway.service_name matches Some(name) && name@ == "discord"@,
        settings.gateway.client_version@ == version,
        settings.visibility == config.visibility,
{
}

/// The file and the model that are used unless something else is said.
pub proof fn law_names_of_file_and_model()
    ensures
        CONFIG_FILE@ == "config.discord-gateway.toml"@,
        DEFAULT_MODEL@ == "gpt-5.4-mini"@,
{
}

} // verus!
