//! The relational database: the pool options it is opened with and the
//! records of soft deletions.

use vstd::prelude::*;
use crate::config::DatabaseConfig;
use crate::db::{or_else, ConnectOptions};

verus! {

/// A record of a soft-deleted entity.
#[derive(Debug, Clone)]
pub struct DeleteEntity {
    pub entity_name: String,
    pub record_id: String,
    pub content: String,
}

/// The pool options for a database configuration: at most 10 and at least
/// 5 connections unless configured; the connect and idle timeouts only
/// where the configuration sets them.
pub fn connect_options(conf: &DatabaseConfig) -> (o: ConnectOptions)
    ensures
        o.url == conf.dsn,
        o.max_connections == or_else(conf.pool.max, 10u32),
        o.min_connections == or_else(conf.pool.min, 5u32),
        o.connect_timeout == conf.pool.connect_timeout,
        o.idle_timeout == conf.pool.idle_timeout,
        o.sqlx_logging == conf.debug,
{
    let max_connections: u32 = match conf.pool.max {
        Some(v) => v,
        None => 10,
    };
    let min_connections: u32 = match conf.pool.min {
        Some(v) => v,
        None => 5,
    };
    ConnectOptions {
        url: conf.dsn.clone(),
        max_connections,
        min_connections,
        connect_timeout: conf.pool.connect_timeout,
        idle_timeout: conf.pool.idle_timeout,
        sqlx_logging: conf.debug,
    }
}

} // verus!
