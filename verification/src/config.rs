//! The configuration of the service.

use crate::text::{blank, is_blank, parse_u16, u16_of_text};
use vstd::prelude::*;

verus! {

/// The port that is served where none is configured.
pub const DEFAULT_PORT: u16 = 8080;

/// The configuration of the service.
#[derive(Clone)]
pub struct Config {
    pub database_url: String,
    pub api_token: String,
    pub port: u16,
}

/// A configuration, with its text as characters.
pub ghost struct ConfigView {
    pub database_url: Seq<char>,
    pub api_token: Seq<char>,
    pub port: u16,
}

impl View for Config {
    type V = ConfigView;

    open spec fn view(&self) -> ConfigView {
        ConfigView {
            database_url: self.database_url@,
            api_token: self.api_token@,
            port: self.port,
        }
    }
}

/// Why no configuration can be had from the environment.
#[derive(Debug, Clone, Copy, PartialEq, Eq, Structural)]
pub enum ConfigError {
    /// `DATABASE_URL` is not set.
    MissingDatabaseUrl,
    /// `API_TOKEN` is not set.
    MissingApiToken,
    /// `API_TOKEN` is set and holds nothing but white space.
    EmptyApiToken,
}

impl ConfigError {
    /// The message that reports the error.
    pub open spec fn message_text(self) -> Seq<char> {
        match self {
            ConfigError::MissingDatabaseUrl => "DATABASE_URL environment variable is required"@,
            ConfigError::MissingApiToken => "API_TOKEN environment variable is required"@,
            ConfigError::EmptyApiToken => "API_TOKEN must not be empty"@,
        }
    }

    /// The message that reports the error.
    pub fn message(&self) -> (text: &'static str)
        ensures
            text@ == self.message_text(),
    {
        match self {
            ConfigError::MissingDatabaseUrl => "DATABASE_URL environment variable is required",
            ConfigError::MissingApiToken => "API_TOKEN environment variable is required",
            ConfigError::EmptyApiToken => "API_TOKEN must not be empty",
        }
    }
}

/// The port that a setting of `PORT` configures: the number that it writes,
/// and the default where it is not set or writes no port number.
pub open spec fn port_of(setting: Option<Seq<char>>) -> u16 {
    match setting {
        Some(text) => match u16_of_text(text) {
            Some(port) => port,
            None => DEFAULT_PORT,
        },
        None => DEFAULT_PORT,
    }
}

/// The configuration that the settings give, or the first thing that is
/// wrong with them.
pub open spec fn config_of(
    database_url: Option<Seq<char>>,
    api_token: Option<Seq<char>>,
    port: Option<Seq<char>>,
) -> Result<ConfigView, ConfigError> {
    match (database_url, api_token) {
        (None, _) => Err(ConfigError::MissingDatabaseUrl),
        (Some(_), None) => Err(ConfigError::MissingApiToken),
        (Some(url), Some(token)) => if blank(token) {
            Err(ConfigError::EmptyApiToken)
        } else {
            Ok(ConfigView { database_url: url, api_token: token, port: port_of(port) })
        },
    }
}

/// The view of a setting that may be absent.
pub open spec fn setting_view(setting: Option<String>) -> Option<Seq<char>> {
    match setting {
        Some(text) => Some(text@),
        None => None,
    }
}

/// The view of what building a configuration returns.
pub open spec fn result_view(r: Result<Config, ConfigError>) -> Result<ConfigView, ConfigError> {
    match r {
        Ok(config) => Ok(config@),
        Err(e) => Err(e),
    }
}

impl Config {
    /// Builds the configuration from the values of the environment variables
    /// `DATABASE_URL`, `API_TOKEN` and `PORT`, each `None` where the variable
    /// is not set.
    pub fn from_env(
        database_url: Option<String>,
        api_token: Option<String>,
        port: Option<String>,
    ) -> (r: Result<Config, ConfigError>)
        ensures
            result_view(r) == config_of(
                setting_view(database_url),
                setting_view(api_token),
                setting_view(port),
            ),
    {
        let database_url = match database_url {
            Some(url) => url,
            None => {
                return Err(ConfigError::MissingDatabaseUrl);
            },
        };
        let api_token = match api_token {
            Some(token) => token,
            None => {
                return Err(ConfigError::MissingApiToken);
            },
        };
        let port: u16 = match port {
            Some(text) => match parse_u16(text.as_str()) {
                Some(port) => port,
                None => DEFAULT_PORT,
            },
            None => DEFAULT_PORT,
        };
        if is_blank(api_token.as_str()) {
            return Err(ConfigError::EmptyApiToken);
        }
        Ok(Config { database_url, api_token, port })
    }
}

} // verus!
