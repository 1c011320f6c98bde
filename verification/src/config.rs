//! The application's configuration and how it is read from the values of
//! the environment.

use crate::utils::decimal::{parse_i64, parse_i64_spec, parse_u16, parse_u16_spec};
use vstd::prelude::*;

verus! {

/// The port that is listened on where the environment names none.
pub const DEFAULT_PORT: u16 = 3000;

/// The lifetime of a token, in minutes, where the environment names none.
pub const DEFAULT_JWT_EXPIRATION: i64 = 3600;

/// App configuration: where the users are stored, how tokens are signed and
/// for how long they last, and the port to listen on.
#[derive(Debug, Clone, PartialEq, Eq)]
pub struct AppConfig {
    pub database_url: String,
    /// The shared secret that signs and checks tokens.
    pub jwt_secret: String,
    pub port: u16,
    /// The lifetime of a token, in minutes.
    pub jwt_expiration: i64,
}

/// A configuration as contracts see it.
pub struct ConfigView {
    pub database_url: Seq<char>,
    pub jwt_secret: Seq<char>,
    pub port: u16,
    pub jwt_expiration: i64,
}

/// Why the environment does not give a configuration.
#[derive(Debug, Clone, Copy, PartialEq, Eq, Structural)]
pub enum ConfigError {
    MissingDatabaseUrl,
    MissingJwtSecret,
    EmptyJwtSecret,
    InvalidPort,
    InvalidJwtExpiration,
    NonPositiveJwtExpiration,
}

impl View for AppConfig {
    type V = ConfigView;

    open spec fn view(&self) -> ConfigView {
        ConfigView {
            database_url: self.database_url@,
            jwt_secret: self.jwt_secret@,
            port: self.port,
            jwt_expiration: self.jwt_expiration,
        }
    }
}

impl ConfigError {
    /// The text that names the failure.
    pub open spec fn message_spec(self) -> Seq<char> {
        match self {
            ConfigError::MissingDatabaseUrl => "DATABASE_URL must be set"@,
            ConfigError::MissingJwtSecret => "JWT_SECRET must be set"@,
            ConfigError::EmptyJwtSecret => "JWT_SECRET must not be empty"@,
            ConfigError::InvalidPort => "PORT must be a number"@,
            ConfigError::InvalidJwtExpiration => "JWT_EXPIRATION must be a number"@,
            ConfigError::NonPositiveJwtExpiration => "JWT_EXPIRATION must be positive"@,
        }
    }

    /// The text that names the failure.
    pub fn message(&self) -> (m: String)
        ensures
            m@ == self.message_spec(),
    {
        match self {
            ConfigError::MissingDatabaseUrl => "DATABASE_URL must be set".to_string(),
            ConfigError::MissingJwtSecret => "JWT_SECRET must be set".to_string(),
            ConfigError::EmptyJwtSecret => "JWT_SECRET must not be empty".to_string(),
            ConfigError::InvalidPort => "PORT must be a number".to_string(),
            ConfigError::InvalidJwtExpiration => "JWT_EXPIRATION must be a number".to_string(),
            ConfigError::NonPositiveJwtExpiration => "JWT_EXPIRATION must be positive".to_string(),
        }
    }
}

/// The port that the environment asks for: the default where it names none,
/// else the number that its text writes.
pub open spec fn port_spec(port: Option<Seq<char>>) -> Option<u16> {
    match port {
        Some(text) => parse_u16_spec(text),
        None => Some(DEFAULT_PORT),
    }
}

/// The token lifetime that the environment asks for: the default where it
/// names none, else the number that its text writes.
pub open spec fn jwt_expiration_spec(jwt_expiration: Option<Seq<char>>) -> Option<i64> {
    match jwt_expiration {
        Some(text) => parse_i64_spec(text),
        None => Some(DEFAULT_JWT_EXPIRATION),
    }
}

/// The configuration that four values of the environment give, or the first
/// failure in the order database URL, secret, port, token lifetime.
pub open spec fn from_env_spec(
    database_url: Option<Seq<char>>,
    jwt_secret: Option<Seq<char>>,
    port: Option<Seq<char>>,
    jwt_expiration: Option<Seq<char>>,
) -> Result<ConfigView, ConfigError> {
    if database_url is None {
        Err(ConfigError::MissingDatabaseUrl)
    } else if jwt_secret is None {
        Err(ConfigError::MissingJwtSecret)
    } else if jwt_secret->0.len() == 0 {
        Err(ConfigError::EmptyJwtSecret)
    } else if port_spec(port) is None {
        Err(ConfigError::InvalidPort)
    } else if jwt_expiration_spec(jwt_expiration) is None {
        Err(ConfigError::InvalidJwtExpiration)
    } else if jwt_expiration_spec(jwt_expiration)->0 <= 0 {
        Err(ConfigError::NonPositiveJwtExpiration)
    } else {
        Ok(
            ConfigView {
                database_url: database_url->0,
                jwt_secret: jwt_secret->0,
                port: port_spec(port)->0,
                jwt_expiration: jwt_expiration_spec(jwt_expiration)->0,
            },
        )
    }
}

/// A configuration or the failure to make one, as contracts see it.
pub open spec fn config_outcome(r: Result<AppConfig, ConfigError>) -> Result<
    ConfigView,
    ConfigError,
> {
    match r {
        Ok(config) => Ok(config@),
        Err(e) => Err(e),
    }
}

impl AppConfig {
    /// A configuration that tokens may be issued under: a secret that is not
    /// empty and a lifetime that is strictly positive.
    pub open spec fn valid(&self) -> bool {
        &&& self.jwt_secret@.len() > 0
        &&& self.jwt_expiration > 0
    }

    /// Tests `valid` at run time.
    pub fn is_valid(&self) -> (b: bool)
        ensures
            b == self.valid(),
    {
        !self.jwt_secret.as_str().is_empty() && self.jwt_expiration > 0
    }

    /// Builds the configuration from the values of the variables
    /// `DATABASE_URL`, `JWT_SECRET`, `PORT` and `JWT_EXPIRATION`, each `None`
    /// where the environment does not hold it. The first two are required;
    /// the port defaults to 3000 and the token lifetime to 3600 minutes. A
    /// configuration that comes back is valid.
    pub fn from_env(
        database_url: Option<String>,
        jwt_secret: Option<String>,
        port: Option<String>,
        jwt_expiration: Option<String>,
    ) -> (r: Result<AppConfig, ConfigError>)
        ensures
            config_outcome(r) == from_env_spec(
                database_url.deep_view(),
                jwt_secret.deep_view(),
                port.deep_view(),
                jwt_expiration.deep_view(),
            ),
            r matches Ok(config) ==> config.valid(),
    {
        let database_url = match database_url {
            Some(text) => text,
            None => return Err(ConfigError::MissingDatabaseUrl),
        };
        let jwt_secret = match jwt_secret {
            Some(text) => text,
            None => return Err(ConfigError::MissingJwtSecret),
        };
        if jwt_secret.as_str().is_empty() {
            return Err(ConfigError::EmptyJwtSecret);
        }
        let port: u16 = match port {
            Some(text) => match parse_u16(text.as_str()) {
                Some(number) => number,
                None => return Err(ConfigError::InvalidPort),
            },
            None => DEFAULT_PORT,
        };
        let jwt_expiration: i64 = match jwt_expiration {
            Some(text) => match parse_i64(text.as_str()) {
                Some(number) => number,
                None => return Err(ConfigError::InvalidJwtExpiration),
            },
            None => DEFAULT_JWT_EXPIRATION,
        };
        if jwt_expiration <= 0 {
            return Err(ConfigError::NonPositiveJwtExpiration);
        }
        Ok(AppConfig { database_url, jwt_secret, port, jwt_expiration })
    }
}

/// Get the application configuration from the values of the environment.
pub fn get_config(
    database_url: Option<String>,
    jwt_secret: Option<String>,
    port: Option<String>,
    jwt_expiration: Option<String>,
) -> (r: Result<AppConfig, ConfigError>)
    ensures
        config_outcome(r) == from_env_spec(
            database_url.deep_view(),
            jwt_secret.deep_view(),
            port.deep_view(),
            jwt_expiration.deep_view(),
        ),
        r matches Ok(config) ==> config.valid(),
{
    AppConfig::from_env(database_url, jwt_secret, port, jwt_expiration)
}

} // verus!
