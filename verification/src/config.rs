//! Configuration management for the warehouse system: the settings, the
//! defaults that fill what the environment leaves out, and the rules a
//! configuration must meet.

use crate::error::AppError;
use crate::text::{clone_opt_string, opt_string_view, same_text};
use vstd::prelude::*;

verus! {

/// The signing secret that ships with the source. It must not reach
/// production.
pub const DEFAULT_JWT_SECRET: &'static str = "default-secret-change-in-production";

/// The name of the environment in which the default secret is refused.
pub const PRODUCTION: &'static str = "production";

/// What is reported when no database address is given.
pub const DATABASE_URL_MISSING: &'static str = "DATABASE_URL must be set";

/// What is reported when the default secret is used in production.
pub const JWT_SECRET_UNCHANGED: &'static str = "JWT_SECRET must be changed in production";

/// What is reported when the pool's bounds are crossed.
pub const POOL_BOUNDS_CROSSED: &'static str =
    "DATABASE_MAX_CONNECTIONS must be >= DATABASE_MIN_CONNECTIONS";

/// How the service listens and which conveniences it switches on.
#[derive(Debug, PartialEq, Eq)]
pub struct ServerConfig {
    pub host: String,
    pub port: u16,
    pub environment: String,
    pub enable_cors: bool,
    pub enable_swagger: bool,
    pub enable_request_logging: bool,
}

/// What a `ServerConfig` holds, with its texts as sequences of characters.
pub ghost struct ServerConfigView {
    pub host: Seq<char>,
    pub port: u16,
    pub environment: Seq<char>,
    pub enable_cors: bool,
    pub enable_swagger: bool,
    pub enable_request_logging: bool,
}

impl View for ServerConfig {
    type V = ServerConfigView;

    open spec fn view(&self) -> ServerConfigView {
        ServerConfigView {
            host: self.host@,
            port: self.port,
            environment: self.environment@,
            enable_cors: self.enable_cors,
            enable_swagger: self.enable_swagger,
            enable_request_logging: self.enable_request_logging,
        }
    }
}

impl Clone for ServerConfig {
    fn clone(&self) -> (copy: Self)
        ensures
            copy == *self,
    {
        ServerConfig {
            host: self.host.clone(),
            port: self.port,
            environment: self.environment.clone(),
            enable_cors: self.enable_cors,
            enable_swagger: self.enable_swagger,
            enable_request_logging: self.enable_request_logging,
        }
    }
}

/// Where the database is and how large its pool may grow. The timeout is in seconds.
#[derive(Debug, PartialEq, Eq)]
pub struct DatabaseConfig {
    pub url: String,
    pub max_connections: u32,
    pub min_connections: u32,
    pub acquire_timeout: u64,
}

/// What a `DatabaseConfig` holds, with its texts as sequences of characters.
pub ghost struct DatabaseConfigView {
    pub url: Seq<char>,
    pub max_connections: u32,
    pub min_connections: u32,
    pub acquire_timeout: u64,
}

impl View for DatabaseConfig {
    type V = DatabaseConfigView;

    open spec fn view(&self) -> DatabaseConfigView {
        DatabaseConfigView {
            url: self.url@,
            max_connections: self.max_connections,
            min_connections: self.min_connections,
            acquire_timeout: self.acquire_timeout,
        }
    }
}

impl Clone for DatabaseConfig {
    fn clone(&self) -> (copy: Self)
        ensures
            copy == *self,
    {
        DatabaseConfig {
            url: self.url.clone(),
            max_connections: self.max_connections,
            min_connections: self.min_connections,
            acquire_timeout: self.acquire_timeout,
        }
    }
}

/// Where the cache is.
#[derive(Debug, PartialEq, Eq)]
pub struct RedisConfig {
    pub url: String,
    pub password: Option<String>,
}

/// What a `RedisConfig` holds, with its texts as sequences of characters.
pub ghost struct RedisConfigView {
    pub url: Seq<char>,
    pub password: Option<Seq<char>>,
}

impl View for RedisConfig {
    type V = RedisConfigView;

    open spec fn view(&self) -> RedisConfigView {
        RedisConfigView {
            url: self.url@,
            password: opt_string_view(self.password),
        }
    }
}

impl Clone for RedisConfig {
    fn clone(&self) -> (copy: Self)
        ensures
            copy == *self,
    {
        RedisConfig {
            url: self.url.clone(),
            password: clone_opt_string(&self.password),
        }
    }
}

/// How much is logged and in what form.
#[derive(Debug, PartialEq, Eq)]
pub struct LoggingConfig {
    pub level: String,
    pub format: String,
}

/// What a `LoggingConfig` holds, with its texts as sequences of characters.
pub ghost struct LoggingConfigView {
    pub level: Seq<char>,
    pub format: Seq<char>,
}

impl View for LoggingConfig {
    type V = LoggingConfigView;

    open spec fn view(&self) -> LoggingConfigView {
        LoggingConfigView {
            level: self.level@,
            format: self.format@,
        }
    }
}

impl Clone for LoggingConfig {
    fn clone(&self) -> (copy: Self)
        ensures
            copy == *self,
    {
        LoggingConfig {
            level: self.level.clone(),
            format: self.format.clone(),
        }
    }
}

/// The secrets of the service.
#[derive(Debug, PartialEq, Eq)]
pub struct SecurityConfig {
    pub jwt_secret: String,
    pub api_key: String,
}

/// What a `SecurityConfig` holds, with its texts as sequences of characters.
pub ghost struct SecurityConfigView {
    pub jwt_secret: Seq<char>,
    pub api_key: Seq<char>,
}

impl View for SecurityConfig {
    type V = SecurityConfigView;

    open spec fn view(&self) -> SecurityConfigView {
        SecurityConfigView {
            jwt_secret: self.jwt_secret@,
            api_key: self.api_key@,
        }
    }
}

impl Clone for SecurityConfig {
    fn clone(&self) -> (copy: Self)
        ensures
            copy == *self,
    {
        SecurityConfig {
            jwt_secret: self.jwt_secret.clone(),
            api_key: self.api_key.clone(),
        }
    }
}

/// The variables of the process environment that configure the service, each absent or with its text.
#[derive(Debug, PartialEq, Eq)]
pub struct Environment {
    pub database_url: Option<String>,
    pub server_host: Option<String>,
    pub server_port: Option<String>,
    pub environment: Option<String>,
    pub enable_cors: Option<String>,
    pub enable_swagger: Option<String>,
    pub enable_request_logging: Option<String>,
    pub database_max_connections: Option<String>,
    pub database_min_connections: Option<String>,
    pub database_acquire_timeout: Option<String>,
    pub redis_url: Option<String>,
    pub redis_password: Option<String>,
    pub log_level: Option<String>,
    pub log_format: Option<String>,
    pub jwt_secret: Option<String>,
    pub api_key: Option<String>,
}

/// What a `Environment` holds, with its texts as sequences of characters.
pub ghost struct EnvironmentView {
    pub database_url: Option<Seq<char>>,
    pub server_host: Option<Seq<char>>,
    pub server_port: Option<Seq<char>>,
    pub environment: Option<Seq<char>>,
    pub enable_cors: Option<Seq<char>>,
    pub enable_swagger: Option<Seq<char>>,
    pub enable_request_logging: Option<Seq<char>>,
    pub database_max_connections: Option<Seq<char>>,
    pub database_min_connections: Option<Seq<char>>,
    pub database_acquire_timeout: Option<Seq<char>>,
    pub redis_url: Option<Seq<char>>,
    pub redis_password: Option<Seq<char>>,
    pub log_level: Option<Seq<char>>,
    pub log_format: Option<Seq<char>>,
    pub jwt_secret: Option<Seq<char>>,
    pub api_key: Option<Seq<char>>,
}

impl View for Environment {
    type V = EnvironmentView;

    open spec fn view(&self) -> EnvironmentView {
        EnvironmentView {
            database_url: opt_string_view(self.database_url),
            server_host: opt_string_view(self.server_host),
            server_port: opt_string_view(self.server_port),
            environment: opt_string_view(self.environment),
            enable_cors: opt_string_view(self.enable_cors),
            enable_swagger: opt_string_view(self.enable_swagger),
            enable_request_logging: opt_string_view(self.enable_request_logging),
            database_max_connections: opt_string_view(self.database_max_connections),
            database_min_connections: opt_string_view(self.database_min_connections),
            database_acquire_timeout: opt_string_view(self.database_acquire_timeout),
            redis_url: opt_string_view(self.redis_url),
            redis_password: opt_string_view(self.redis_password),
            log_level: opt_string_view(self.log_level),
            log_format: opt_string_view(self.log_format),
            jwt_secret: opt_string_view(self.jwt_secret),
            api_key: opt_string_view(self.api_key),
        }
    }
}

/// The whole configuration.
#[derive(Debug, PartialEq, Eq)]
pub struct Config {
    pub server: ServerConfig,
    pub database: DatabaseConfig,
    pub redis: RedisConfig,
    pub logging: LoggingConfig,
    pub security: SecurityConfig,
}

/// What a `Config` holds, with its texts as sequences of characters.
pub ghost struct ConfigView {
    pub server: ServerConfigView,
    pub database: DatabaseConfigView,
    pub redis: RedisConfigView,
    pub logging: LoggingConfigView,
    pub security: SecurityConfigView,
}

impl View for Config {
    type V = ConfigView;

    open spec fn view(&self) -> ConfigView {
        ConfigView {
            server: self.server@,
            database: self.database@,
            redis: self.redis@,
            logging: self.logging@,
            security: self.security@,
        }
    }
}

impl Clone for Config {
    fn clone(&self) -> (copy: Self)
        ensures
            copy == *self,
    {
        Config {
            server: self.server.clone(),
            database: self.database.clone(),
            redis: self.redis.clone(),
            logging: self.logging.clone(),
            security: self.security.clone(),
        }
    }
}

/// Whether `c` is a decimal digit.
pub open spec fn is_digit(c: char) -> bool {
    0x30 <= c as int <= 0x39
}

/// The number that a run of decimal digits writes.
pub open spec fn digits_value(digits: Seq<char>) -> nat
    decreases digits.len(),
{
    if digits.len() == 0 {
        0
    } else {
        digits_value(digits.drop_last()) * 10 + (digits.last() as int - 0x30) as nat
    }
}

/// The number a text writes, if it is one that does not exceed `max`: an
/// optional plus sign, then one or more decimal digits and nothing else.
pub open spec fn unsigned_of(text: Seq<char>, max: nat) -> Option<nat> {
    let digits = if text.len() > 0 && text[0] == '+' {
        text.drop_first()
    } else {
        text
    };
    if digits.len() > 0 && (forall|i: int| 0 <= i < digits.len() ==> is_digit(#[trigger] digits[i]))
        && digits_value(digits) <= max {
        Some(digits_value(digits))
    } else {
        None
    }
}

/// The text of a variable, or the default where it is absent.
pub open spec fn text_or(var: Option<Seq<char>>, default: Seq<char>) -> Seq<char> {
    match var {
        Some(text) => text,
        None => default,
    }
}

/// The switch a variable sets: on for `true`, off for `false`, the default
/// where it is absent or says anything else.
pub open spec fn flag_or(var: Option<Seq<char>>, default: bool) -> bool {
    if var == Some("true"@) {
        true
    } else if var == Some("false"@) {
        false
    } else {
        default
    }
}

/// The number a variable sets: the one it writes, or the default where it
/// is absent, writes none, or writes one above `max`.
pub open spec fn number_or(var: Option<Seq<char>>, max: nat, default: nat) -> nat {
    match var {
        Some(text) => match unsigned_of(text, max) {
            Some(n) => n,
            None => default,
        },
        None => default,
    }
}

/// Wraps `str::parse::<u16>`: the number the text writes, if it is one that
/// fits.
#[verifier::external_body]
pub(crate) fn parse_u16(text: &str) -> (number: Option<u16>)
    ensures
        match number {
            Some(n) => unsigned_of(text@, u16::MAX as nat) == Some(n as nat),
            None => unsigned_of(text@, u16::MAX as nat) is None,
        },
{
    text.parse::<u16>().ok()
}

/// Wraps `str::parse::<u32>`: the number the text writes, if it is one that
/// fits.
#[verifier::external_body]
pub(crate) fn parse_u32(text: &str) -> (number: Option<u32>)
    ensures
        match number {
            Some(n) => unsigned_of(text@, u32::MAX as nat) == Some(n as nat),
            None => unsigned_of(text@, u32::MAX as nat) is None,
        },
{
    text.parse::<u32>().ok()
}

/// Wraps `str::parse::<u64>`: the number the text writes, if it is one that
/// fits.
#[verifier::external_body]
pub(crate) fn parse_u64(text: &str) -> (number: Option<u64>)
    ensures
        match number {
            Some(n) => unsigned_of(text@, u64::MAX as nat) == Some(n as nat),
            None => unsigned_of(text@, u64::MAX as nat) is None,
        },
{
    text.parse::<u64>().ok()
}

fn text_setting(var: Option<String>, default: &str) -> (text: String)
    ensures
        text@ == text_or(opt_string_view(var), default@),
{
    match var {
        Some(text) => text,
        None => String::from_str(default),
    }
}

fn flag_setting(var: &Option<String>, default: bool) -> (flag: bool)
    ensures
        flag == flag_or(opt_string_view(*var), default),
{
    match var {
        Some(text) => if same_text(text.as_str(), "true") {
            true
        } else if same_text(text.as_str(), "false") {
            false
        } else {
            default
        },
        None => default,
    }
}

fn u16_setting(var: &Option<String>, default: u16) -> (number: u16)
    ensures
        number == number_or(opt_string_view(*var), u16::MAX as nat, default as nat),
{
    match var {
        Some(text) => match parse_u16(text.as_str()) {
            Some(n) => n,
            None => default,
        },
        None => default,
    }
}

fn u32_setting(var: &Option<String>, default: u32) -> (number: u32)
    ensures
        number == number_or(opt_string_view(*var), u32::MAX as nat, default as nat),
{
    match var {
        Some(text) => match parse_u32(text.as_str()) {
            Some(n) => n,
            None => default,
        },
        None => default,
    }
}

fn u64_setting(var: &Option<String>, default: u64) -> (number: u64)
    ensures
        number == number_or(opt_string_view(*var), u64::MAX as nat, default as nat),
{
    match var {
        Some(text) => match parse_u64(text.as_str()) {
            Some(n) => n,
            None => default,
        },
        None => default,
    }
}

impl EnvironmentView {
    /// The configuration these variables give, with every default applied.
    /// It supposes that the database address is present.
    pub open spec fn config(self) -> ConfigView {
        ConfigView {
            server: ServerConfigView {
                host: text_or(self.server_host, "0.0.0.0"@),
                port: number_or(self.server_port, u16::MAX as nat, 8000) as u16,
                environment: text_or(self.environment, "development"@),
                enable_cors: flag_or(self.enable_cors, true),
                enable_swagger: flag_or(self.enable_swagger, true),
                enable_request_logging: flag_or(self.enable_request_logging, true),
            },
            database: DatabaseConfigView {
                url: self.database_url->0,
                max_connections: number_or(self.database_max_connections, u32::MAX as nat, 10) as u32,
                min_connections: number_or(self.database_min_connections, u32::MAX as nat, 1) as u32,
                acquire_timeout: number_or(self.database_acquire_timeout, u64::MAX as nat, 30) as u64,
            },
            redis: RedisConfigView {
                url: text_or(self.redis_url, "redis://localhost:6379"@),
                password: self.redis_password,
            },
            logging: LoggingConfigView {
                level: text_or(self.log_level, "info"@),
                format: text_or(self.log_format, "json"@),
            },
            security: SecurityConfigView {
                jwt_secret: text_or(self.jwt_secret, DEFAULT_JWT_SECRET@),
                api_key: text_or(self.api_key, "default-api-key"@),
            },
        }
    }
}

impl ConfigView {
    /// Whether the default secret is used in production.
    pub open spec fn secret_unchanged(self) -> bool {
        self.security.jwt_secret == DEFAULT_JWT_SECRET@ && self.server.environment == PRODUCTION@
    }

    /// Whether the pool may hold fewer connections than it must.
    pub open spec fn pool_bounds_crossed(self) -> bool {
        self.database.max_connections < self.database.min_connections
    }
}

impl Config {
    /// Load configuration from the variables of the environment. Only the
    /// database address is required; a variable that is absent or does not
    /// parse gets its default.
    pub fn from_env(env: Environment) -> (result: Result<Config, AppError>)
        ensures
            match result {
                Ok(config) => env@.database_url is Some && config@ == env@.config(),
                Err(e) => {
                    &&& env@.database_url is None
                    &&& e matches AppError::Config(msg)
                    &&& msg@ == DATABASE_URL_MISSING@
                },
            },
    {
        let database_url = match env.database_url {
            Some(url) => url,
            None => {
                return Err(AppError::Config(String::from_str(DATABASE_URL_MISSING)));
            },
        };
        let port = u16_setting(&env.server_port, 8000);
        let enable_cors = flag_setting(&env.enable_cors, true);
        let enable_swagger = flag_setting(&env.enable_swagger, true);
        let enable_request_logging = flag_setting(&env.enable_request_logging, true);
        let max_connections = u32_setting(&env.database_max_connections, 10);
        let min_connections = u32_setting(&env.database_min_connections, 1);
        let acquire_timeout = u64_setting(&env.database_acquire_timeout, 30);
        Ok(
            Config {
                server: ServerConfig {
                    host: text_setting(env.server_host, "0.0.0.0"),
                    port,
                    environment: text_setting(env.environment, "development"),
                    enable_cors,
                    enable_swagger,
                    enable_request_logging,
                },
                database: DatabaseConfig {
                    url: database_url,
                    max_connections,
                    min_connections,
                    acquire_timeout,
                },
                redis: RedisConfig {
                    url: text_setting(env.redis_url, "redis://localhost:6379"),
                    password: env.redis_password,
                },
                logging: LoggingConfig {
                    level: text_setting(env.log_level, "info"),
                    format: text_setting(env.log_format, "json"),
                },
                security: SecurityConfig {
                    jwt_secret: text_setting(env.jwt_secret, DEFAULT_JWT_SECRET),
                    api_key: text_setting(env.api_key, "default-api-key"),
                },
            },
        )
    }

    /// Validate configuration: the default secret is refused in production,
    /// and the pool's upper bound must not lie below its lower bound. The
    /// first rule that is broken is the one reported.
    pub fn validate(&self) -> (result: Result<(), AppError>)
        ensures
            match result {
                Ok(_) => !self@.secret_unchanged() && !self@.pool_bounds_crossed(),
                Err(e) => {
                    &&& e matches AppError::Config(msg)
                    &&& if self@.secret_unchanged() {
                        msg@ == JWT_SECRET_UNCHANGED@
                    } else {
                        self@.pool_bounds_crossed() && msg@ == POOL_BOUNDS_CROSSED@
                    }
                },
            },
    {
        if same_text(self.security.jwt_secret.as_str(), DEFAULT_JWT_SECRET) && same_text(
            self.server.environment.as_str(),
            PRODUCTION,
        ) {
            return Err(AppError::Config(String::from_str(JWT_SECRET_UNCHANGED)));
        }
        if self.database.max_connections < self.database.min_connections {
            return Err(AppError::Config(String::from_str(POOL_BOUNDS_CROSSED)));
        }
        Ok(())
    }
}

} // verus!
