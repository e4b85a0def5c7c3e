//! The options that the database connection pool is opened with.

use vstd::prelude::*;
use crate::config::DatabaseConfig;

verus! {

/// Options of a database connection pool.
#[derive(Debug, Clone)]
pub struct ConnectOptions {
    /// The data source name to connect to.
    pub url: String,
    pub max_connections: u32,
    pub min_connections: u32,
    /// Seconds to wait for a connection, if limited.
    pub connect_timeout: Option<u64>,
    /// Seconds after which an idle connection is closed, if limited.
    pub idle_timeout: Option<u64>,
    /// Whether statements are logged.
    pub sqlx_logging: bool,
}

/// `o`, or `default` when it is `None`.
pub open spec fn or_else<T>(o: Option<T>, default: T) -> T {
    match o {
        Some(v) => v,
        None => default,
    }
}

/// The pool options for a database configuration: at most 10 and at least
/// 5 connections, a connect timeout of 5 seconds and an idle timeout of 60
/// seconds, each unless the configuration sets it.
pub fn connect_options(conf: &DatabaseConfig) -> (o: ConnectOptions)
    ensures
        o.url == conf.dsn,
        o.max_connections == or_else(conf.pool.max, 10u32),
        o.min_connections == or_else(conf.pool.min, 5u32),
        o.connect_timeout == Some(or_else(conf.pool.connect_timeout, 5u64)),
        o.idle_timeout == Some(or_else(conf.pool.idle_timeout, 60u64)),
        o.sqlx_logging == conf.debug,
{
    let max_connections: u32 = match conf.pool.max {
        Some(v) => v,
        None => 10,
    };
    let min_connections: u32 = match conf.pool.min {
        Some(v) => v,
        None => 5,
    };
    let connect_timeout: u64 = match conf.pool.connect_timeout {
        Some(v) => v,
        None => 5,
    };
    let idle_timeout: u64 = match conf.pool.idle_timeout {
        Some(v) => v,
        None => 60,
    };
    ConnectOptions {
        url: conf.dsn.clone(),
        max_connections,
        min_connections,
        connect_timeout: Some(connect_timeout),
        idle_timeout: Some(idle_timeout),
        sqlx_logging: conf.debug,
    }
}

} // verus!
