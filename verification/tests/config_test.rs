use infrastructure::config::{bind_address, config_files, is_dev, map_env_key, run_mode_or_default, DatabaseConfig, DbPool};
use infrastructure::{db, rdbms};

#[test]
fn env_keys_become_nested_keys() {
    assert_eq!(map_env_key("DATABASE_POOL_MAX"), "DATABASE.POOL.MAX");
    assert_eq!(map_env_key("DATABASE_DSN"), "DATABASE.DSN");
    assert_eq!(map_env_key("REDIS_URL"), "REDIS.URL");
    assert_eq!(map_env_key("AUTH_CLIENT_ID"), "AUTH.CLIENT.ID");
    assert_eq!(map_env_key("AUTH_SECRET"), "AUTH.SECRET");
    assert_eq!(map_env_key("PORT"), "PORT");
    assert_eq!(map_env_key("RUN_MODE"), "RUN_MODE");
    assert_eq!(map_env_key("MY_DATABASE_HOST"), "MY_DATABASE.HOST");
}

#[test]
fn run_mode_and_files() {
    assert_eq!(run_mode_or_default(None), "development");
    assert_eq!(run_mode_or_default(Some("production".to_string())), "production");
    assert!(is_dev(&"development".to_string()));
    assert!(!is_dev(&"production".to_string()));
    assert!(!is_dev(&"Development".to_string()));
    assert_eq!(
        config_files("production"),
        vec!["config/default.yaml".to_string(), "config/local.yaml".to_string(), "config/production.toml".to_string()]
    );
}

#[test]
fn bind_addresses() {
    assert_eq!(bind_address(3000), "0.0.0.0:3000");
    assert_eq!(bind_address(0), "0.0.0.0:0");
    assert_eq!(bind_address(65535), "0.0.0.0:65535");
}

fn conf(pool: DbPool) -> DatabaseConfig {
    DatabaseConfig { name: "app".to_string(), dsn: "postgres://db/app".to_string(), debug: true, pool }
}

#[test]
fn pool_defaults() {
    let empty = DbPool { min: None, max: None, connect_timeout: None, idle_timeout: None };
    let o = db::connect_options(&conf(empty.clone()));
    assert_eq!((o.max_connections, o.min_connections, o.connect_timeout, o.idle_timeout), (10, 5, Some(5), Some(60)));
    assert_eq!(o.url, "postgres://db/app");
    assert!(o.sqlx_logging);
    let o = rdbms::connect_options(&conf(empty));
    assert_eq!((o.max_connections, o.min_connections, o.connect_timeout, o.idle_timeout), (10, 5, None, None));
    let set = DbPool { min: Some(1), max: Some(2), connect_timeout: Some(3), idle_timeout: Some(4) };
    let o = db::connect_options(&conf(set.clone()));
    assert_eq!((o.max_connections, o.min_connections, o.connect_timeout, o.idle_timeout), (2, 1, Some(3), Some(4)));
    let o = rdbms::connect_options(&conf(set));
    assert_eq!((o.max_connections, o.min_connections, o.connect_timeout, o.idle_timeout), (2, 1, Some(3), Some(4)));
}
