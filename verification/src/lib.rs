//! The rules of a small health service: what its liveness and readiness
//! endpoints answer, how its database connection is configured, and where
//! it listens.

pub mod config;
pub mod connect;
pub mod health;
pub mod server;

pub use config::DatabaseConfig;
pub use health::{health_check, health_check_db, Status, PROBE_QUERY};
