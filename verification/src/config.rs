//! The settings that the process is started with.
//!
//! A [`Config`] is built once, from the values of three settings, before the
//! service accepts a connection. A setting that is missing, or a token lifetime
//! that is no number, leaves the process without a configuration:
//! [`Config::fault`] names what is wrong, and [`Config::init`] takes only values
//! with which nothing is.

use vstd::prelude::*;
use crate::decimal::{decimal_text, lemma_decimal_text_parses, parse_i64, parsed_i64};

verus! {

/// The setting that holds the database connection string.
pub const DATABASE_URL: &'static str = "DATABASE_URL";

/// The setting that holds the secret with which tokens are signed.
pub const JWT_SECRET_KEY: &'static str = "JWT_SECRET_KEY";

/// The setting that holds the lifetime of a token, in seconds.
pub const JWT_MAXAGE: &'static str = "JWT_MAXAGE";

/// The port on which the service listens. No setting changes it.
pub const DEFAULT_PORT: u16 = 3100;

/// Why no configuration could be built.
#[derive(Debug, Clone, Copy, PartialEq, Eq, Structural)]
pub enum ConfigError {
    /// The connection string is not set.
    DatabaseUrlMissing,
    /// The signing secret is not set.
    JwtSecretMissing,
    /// The token lifetime is not set.
    JwtMaxageMissing,
    /// The token lifetime is set, but is no signed 64-bit integer.
    JwtMaxageInvalid,
}

impl ConfigError {
    /// What to tell the operator.
    pub open spec fn text(self) -> Seq<char> {
        match self {
            ConfigError::DatabaseUrlMissing => "DATABASE_URL must be set"@,
            ConfigError::JwtSecretMissing => "JWT_SECRET_KEY must be set"@,
            ConfigError::JwtMaxageMissing => "JWT_MAXAGE must be set"@,
            ConfigError::JwtMaxageInvalid => "JWT_MAXAGE must be a signed 64-bit integer"@,
        }
    }

    /// What to tell the operator.
    pub fn to_str(&self) -> (message: &'static str)
        ensures
            message@ == self.text(),
    {
        match self {
            ConfigError::DatabaseUrlMissing => "DATABASE_URL must be set",
            ConfigError::JwtSecretMissing => "JWT_SECRET_KEY must be set",
            ConfigError::JwtMaxageMissing => "JWT_MAXAGE must be set",
            ConfigError::JwtMaxageInvalid => "JWT_MAXAGE must be a signed 64-bit integer",
        }
    }
}

/// What a [`Config`] holds, as mathematical values.
pub struct ConfigView {
    pub database_url: Seq<char>,
    pub jwt_secret: Seq<char>,
    pub jwt_maxage: i64,
    pub port: u16,
}

/// The configuration of the process.
#[derive(Debug, Clone)]
pub struct Config {
    pub database_url: String,
    pub jwt_secret: String,
    pub jwt_maxage: i64,
    pub port: u16,
}

impl View for Config {
    type V = ConfigView;

    open spec fn view(&self) -> ConfigView {
        ConfigView {
            database_url: self.database_url@,
            jwt_secret: self.jwt_secret@,
            jwt_maxage: self.jwt_maxage,
            port: self.port,
        }
    }
}

/// The text of a setting, if it is set.
pub open spec fn setting_text(setting: Option<String>) -> Option<Seq<char>> {
    match setting {
        Some(value) => Some(value@),
        None => None,
    }
}

/// The configuration that three settings give, each taken as its text where it
/// is set. The first setting that is missing decides the error; the token
/// lifetime is looked at last.
pub open spec fn loaded(
    database_url: Option<Seq<char>>,
    jwt_secret: Option<Seq<char>>,
    jwt_maxage: Option<Seq<char>>,
) -> Result<ConfigView, ConfigError> {
    if database_url is None {
        Err(ConfigError::DatabaseUrlMissing)
    } else if jwt_secret is None {
        Err(ConfigError::JwtSecretMissing)
    } else if jwt_maxage is None {
        Err(ConfigError::JwtMaxageMissing)
    } else if parsed_i64(jwt_maxage.unwrap()) is None {
        Err(ConfigError::JwtMaxageInvalid)
    } else {
        Ok(
            ConfigView {
                database_url: database_url.unwrap(),
                jwt_secret: jwt_secret.unwrap(),
                jwt_maxage: parsed_i64(jwt_maxage.unwrap()).unwrap(),
                port: DEFAULT_PORT,
            },
        )
    }
}

/// The first thing wrong with three settings, if anything is.
pub open spec fn fault_of(
    database_url: Option<Seq<char>>,
    jwt_secret: Option<Seq<char>>,
    jwt_maxage: Option<Seq<char>>,
) -> Option<ConfigError> {
    match loaded(database_url, jwt_secret, jwt_maxage) {
        Ok(_) => None,
        Err(error) => Some(error),
    }
}

impl Config {
    /// What keeps the process from starting with these values of the settings
    /// [`DATABASE_URL`], [`JWT_SECRET_KEY`] and [`JWT_MAXAGE`], each `None` where
    /// it is not set; `None` where nothing does. A caller that gets an error
    /// has to stop the process: [`Config::init`] takes no such values.
    pub fn fault(
        database_url: &Option<String>,
        jwt_secret: &Option<String>,
        jwt_maxage: &Option<String>,
    ) -> (fault: Option<ConfigError>)
        ensures
            fault == fault_of(
                setting_text(*database_url),
                setting_text(*jwt_secret),
                setting_text(*jwt_maxage),
            ),
    {
        if database_url.is_none() {
            return Some(ConfigError::DatabaseUrlMissing);
        }
        if jwt_secret.is_none() {
            return Some(ConfigError::JwtSecretMissing);
        }
        match jwt_maxage {
            None => Some(ConfigError::JwtMaxageMissing),
            Some(value) => match parse_i64(value.as_str()) {
                Some(_) => None,
                None => Some(ConfigError::JwtMaxageInvalid),
            },
        }
    }

    /// Builds the configuration from the values of the three settings. All
    /// three are set and the token lifetime is a signed 64-bit integer in
    /// decimal notation: with anything else there is no configuration, and
    /// [`Config::fault`] says why.
    pub fn init(
        database_url: Option<String>,
        jwt_secret: Option<String>,
        jwt_maxage: Option<String>,
    ) -> (config: Config)
        requires
            database_url is Some,
            jwt_secret is Some,
            jwt_maxage is Some,
            parsed_i64(jwt_maxage.unwrap()@) is Some,
        ensures
            Ok::<ConfigView, ConfigError>(config@) == loaded(
                setting_text(database_url),
                setting_text(jwt_secret),
                setting_text(jwt_maxage),
            ),
    {
        let lifetime = jwt_maxage.unwrap();
        let seconds = parse_i64(lifetime.as_str()).unwrap();
        Config {
            database_url: database_url.unwrap(),
            jwt_secret: jwt_secret.unwrap(),
            jwt_maxage: seconds,
            port: DEFAULT_PORT,
        }
    }
}

/// [`Config::fault`] finds nothing wrong exactly with the values that
/// [`Config::init`] asks for: all three set, and the token lifetime a signed
/// 64-bit integer in decimal notation. Where it finds nothing, `init` can be
/// called.
pub proof fn lemma_init_takes_what_has_no_fault(
    database_url: Option<String>,
    jwt_secret: Option<String>,
    jwt_maxage: Option<String>,
    fault: Option<ConfigError>,
)
    requires
        call_ensures(Config::fault, (&database_url, &jwt_secret, &jwt_maxage), fault),
    ensures
        fault is None <==> database_url is Some && jwt_secret is Some && jwt_maxage is Some
            && parsed_i64(jwt_maxage.unwrap()@) is Some,
        fault is None ==> call_requires(Config::init, (database_url, jwt_secret, jwt_maxage)),
{
}

/// With one of the three settings missing there is no configuration: the
/// fault is that a setting is missing, the connection string first.
pub proof fn lemma_missing_setting_stops(
    database_url: Option<String>,
    jwt_secret: Option<String>,
    jwt_maxage: Option<String>,
    fault: Option<ConfigError>,
)
    requires
        call_ensures(Config::fault, (&database_url, &jwt_secret, &jwt_maxage), fault),
        database_url is None || jwt_secret is None || jwt_maxage is None,
    ensures
        fault is Some,
        fault != Some(ConfigError::JwtMaxageInvalid),
        database_url is None ==> fault == Some(ConfigError::DatabaseUrlMissing),
{
}

/// With a token lifetime that is no signed 64-bit integer in decimal notation
/// there is no configuration: there is a fault, and where the other two
/// settings are present it is the lifetime.
pub proof fn lemma_invalid_lifetime_stops(
    database_url: Option<String>,
    jwt_secret: Option<String>,
    jwt_maxage: String,
    fault: Option<ConfigError>,
)
    requires
        call_ensures(Config::fault, (&database_url, &jwt_secret, &Some(jwt_maxage)), fault),
        parsed_i64(jwt_maxage@) is None,
    ensures
        fault is Some,
        database_url is Some && jwt_secret is Some ==> fault == Some(
            ConfigError::JwtMaxageInvalid,
        ),
{
}

/// With all three settings present, and the token lifetime a number of seconds
/// written in decimal notation, nothing is at fault, and the configuration
/// holds the first two settings as they are, that number of seconds, and the
/// fixed port.
pub proof fn lemma_complete_settings_load(
    database_url: String,
    jwt_secret: String,
    jwt_maxage: String,
    seconds: nat,
    fault: Option<ConfigError>,
    config: Config,
)
    requires
        call_ensures(
            Config::fault,
            (&Some(database_url), &Some(jwt_secret), &Some(jwt_maxage)),
            fault,
        ),
        call_ensures(
            Config::init,
            (Some(database_url), Some(jwt_secret), Some(jwt_maxage)),
            config,
        ),
        seconds <= i64::MAX,
        jwt_maxage@ == decimal_text(seconds),
    ensures
        fault is None,
        call_requires(Config::init, (Some(database_url), Some(jwt_secret), Some(jwt_maxage))),
        config@ == (ConfigView {
            database_url: database_url@,
            jwt_secret: jwt_secret@,
            jwt_maxage: seconds as i64,
            port: 3100,
        }),
{
    lemma_decimal_text_parses(seconds);
}

} // verus!
