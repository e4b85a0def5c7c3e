//! Error values, HTTP responses, configuration and logging logic of the
//! backend service, with their contracts proved by Verus.

pub mod text;
pub mod status;
pub mod json;
pub mod errors;
pub mod handler;
pub mod health;
pub mod tracing;
pub mod tracing_provider;
pub mod logger;
pub mod config;
pub mod db;
pub mod rdbms;
pub mod env;
pub mod hash;
pub mod extractors;
pub mod users;
