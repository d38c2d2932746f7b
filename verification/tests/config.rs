use warehouse::config::{
    Config, DatabaseConfig, Environment, LoggingConfig, RedisConfig, SecurityConfig, ServerConfig,
};
use warehouse::error::AppError;

fn empty_env() -> Environment {
    Environment {
        database_url: None,
        server_host: None,
        server_port: None,
        environment: None,
        enable_cors: None,
        enable_swagger: None,
        enable_request_logging: None,
        database_max_connections: None,
        database_min_connections: None,
        database_acquire_timeout: None,
        redis_url: None,
        redis_password: None,
        log_level: None,
        log_format: None,
        jwt_secret: None,
        api_key: None,
    }
}

fn with_url() -> Environment {
    Environment { database_url: Some("postgres://localhost/warehouse".to_string()), ..empty_env() }
}

fn text(s: &str) -> Option<String> {
    Some(s.to_string())
}

#[test]
fn database_url_is_required() {
    assert_eq!(Config::from_env(empty_env()), Err(AppError::Config("DATABASE_URL must be set".to_string())));
}

#[test]
fn defaults_fill_what_is_absent() {
    assert_eq!(
        Config::from_env(with_url()),
        Ok(Config {
            server: ServerConfig {
                host: "0.0.0.0".to_string(),
                port: 8000,
                environment: "development".to_string(),
                enable_cors: true,
                enable_swagger: true,
                enable_request_logging: true,
            },
            database: DatabaseConfig {
                url: "postgres://localhost/warehouse".to_string(),
                max_connections: 10,
                min_connections: 1,
                acquire_timeout: 30,
            },
            redis: RedisConfig { url: "redis://localhost:6379".to_string(), password: None },
            logging: LoggingConfig { level: "info".to_string(), format: "json".to_string() },
            security: SecurityConfig {
                jwt_secret: "default-secret-change-in-production".to_string(),
                api_key: "default-api-key".to_string(),
            },
        })
    );
}

#[test]
fn variables_override_defaults() {
    let env = Environment {
        database_url: text("postgres://db/prod"),
        server_host: text("127.0.0.1"),
        server_port: text("9090"),
        environment: text("production"),
        enable_cors: text("false"),
        enable_swagger: text("false"),
        enable_request_logging: text("false"),
        database_max_connections: text("50"),
        database_min_connections: text("5"),
        database_acquire_timeout: text("3"),
        redis_url: text("redis://cache:6379"),
        redis_password: text("hunter2"),
        log_level: text("debug"),
        log_format: text("pretty"),
        jwt_secret: text("s3cret"),
        api_key: text("key"),
    };
    assert_eq!(
        Config::from_env(env),
        Ok(Config {
            server: ServerConfig {
                host: "127.0.0.1".to_string(),
                port: 9090,
                environment: "production".to_string(),
                enable_cors: false,
                enable_swagger: false,
                enable_request_logging: false,
            },
            database: DatabaseConfig {
                url: "postgres://db/prod".to_string(),
                max_connections: 50,
                min_connections: 5,
                acquire_timeout: 3,
            },
            redis: RedisConfig { url: "redis://cache:6379".to_string(), password: text("hunter2") },
            logging: LoggingConfig { level: "debug".to_string(), format: "pretty".to_string() },
            security: SecurityConfig { jwt_secret: "s3cret".to_string(), api_key: "key".to_string() },
        })
    );
}

#[test]
fn numbers_that_do_not_parse_get_the_default() {
    let port = |value: &str| {
        Config::from_env(Environment { server_port: text(value), ..with_url() }).unwrap().server.port
    };
    assert_eq!(port("8080"), 8080);
    assert_eq!(port("+8080"), 8080);
    assert_eq!(port("0008080"), 8080);
    assert_eq!(port("0"), 0);
    assert_eq!(port("65535"), 65535);
    assert_eq!(port("65536"), 8000);
    assert_eq!(port(""), 8000);
    assert_eq!(port("+"), 8000);
    assert_eq!(port("-1"), 8000);
    assert_eq!(port(" 80"), 8000);
    assert_eq!(port("80 "), 8000);
    assert_eq!(port("8_080"), 8000);
    assert_eq!(port("0x50"), 8000);
    assert_eq!(port("eighty"), 8000);
    assert_eq!(port("++80"), 8000);

    let pool = Config::from_env(Environment {
        database_max_connections: text("4294967295"),
        database_min_connections: text("4294967296"),
        database_acquire_timeout: text("18446744073709551615"),
        ..with_url()
    })
    .unwrap()
    .database;
    assert_eq!(pool.max_connections, u32::MAX);
    assert_eq!(pool.min_connections, 1);
    assert_eq!(pool.acquire_timeout, u64::MAX);
    let timeout = Config::from_env(Environment { database_acquire_timeout: text("18446744073709551616"), ..with_url() })
        .unwrap()
        .database
        .acquire_timeout;
    assert_eq!(timeout, 30);
}

#[test]
fn switches_accept_only_true_and_false() {
    let cors = |value: &str| {
        Config::from_env(Environment { enable_cors: text(value), ..with_url() }).unwrap().server.enable_cors
    };
    assert!(cors("true"));
    assert!(!cors("false"));
    assert!(cors("TRUE"));
    assert!(cors("False"));
    assert!(cors("0"));
    assert!(cors("no"));
    assert!(cors(""));
    assert!(cors(" false"));
}

#[test]
fn default_secret_is_refused_in_production() {
    let mut config = Config::from_env(Environment { environment: text("production"), ..with_url() }).unwrap();
    assert_eq!(config.validate(), Err(AppError::Config("JWT_SECRET must be changed in production".to_string())));
    config.security.jwt_secret = "changed".to_string();
    assert_eq!(config.validate(), Ok(()));
    let development = Config::from_env(with_url()).unwrap();
    assert_eq!(development.validate(), Ok(()));
    let shouting = Config::from_env(Environment { environment: text("Production"), ..with_url() }).unwrap();
    assert_eq!(shouting.validate(), Ok(()));
}

#[test]
fn pool_bounds_must_not_cross() {
    let mut config = Config::from_env(with_url()).unwrap();
    config.database.max_connections = 4;
    config.database.min_connections = 5;
    assert_eq!(
        config.validate(),
        Err(AppError::Config("DATABASE_MAX_CONNECTIONS must be >= DATABASE_MIN_CONNECTIONS".to_string()))
    );
    config.database.min_connections = 4;
    assert_eq!(config.validate(), Ok(()));
}

#[test]
fn secret_rule_is_reported_before_pool_rule() {
    let mut config = Config::from_env(Environment { environment: text("production"), ..with_url() }).unwrap();
    config.database.max_connections = 1;
    config.database.min_connections = 2;
    assert_eq!(config.validate(), Err(AppError::Config("JWT_SECRET must be changed in production".to_string())));
}

#[test]
fn config_clone_is_equal() {
    let config = Config::from_env(with_url()).unwrap();
    assert_eq!(config.clone(), config);
}
