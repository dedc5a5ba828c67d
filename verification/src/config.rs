//! The connection configuration and its conversion into sqlx's options.

use crate::connect::{
    connect_database, connect_host, connect_password, connect_port, connect_username,
    environment_options, with_database, with_host, with_password, with_port, with_username,
};
use sqlx::postgres::PgConnectOptions;
use vstd::prelude::*;
use vstd::std_specs::convert::FromSpecImpl;

verus! {

/// Where the database is and how to log in to it.
///
/// No field is validated: a host that cannot be reached or a password that
/// the server rejects shows only when the first query runs.
pub struct DatabaseConfig {
    pub host: String,
    pub port: u16,
    pub username: String,
    pub password: String,
    pub database: String,
}

/// A `DatabaseConfig` as plain values.
pub struct DatabaseConfigView {
    pub host: Seq<char>,
    pub port: u16,
    pub username: Seq<char>,
    pub password: Seq<char>,
    pub database: Seq<char>,
}

impl View for DatabaseConfig {
    type V = DatabaseConfigView;

    open spec fn view(&self) -> DatabaseConfigView {
        DatabaseConfigView {
            host: self.host@,
            port: self.port,
            username: self.username@,
            password: self.password@,
            database: self.database@,
        }
    }
}

/// The parameters that the service is built with.
pub open spec fn builtin_config() -> DatabaseConfigView {
    DatabaseConfigView {
        host: "localhost"@,
        port: 5432,
        username: "app"@,
        password: "passwd"@,
        database: "app"@,
    }
}

impl Default for DatabaseConfig {
    /// The parameters that the service is built with.
    fn default() -> (config: DatabaseConfig)
        ensures
            config@ == builtin_config(),
    {
        DatabaseConfig {
            host: "localhost".to_owned(),
            port: 5432,
            username: "app".to_owned(),
            password: "passwd".to_owned(),
            database: "app".to_owned(),
        }
    }
}

/// Whether `options` connect to the host, port, user, password and database
/// that `config` gives.
pub open spec fn configured_as(options: PgConnectOptions, config: DatabaseConfigView) -> bool {
    &&& connect_host(options) == config.host
    &&& connect_port(options) == config.port
    &&& connect_username(options) == config.username
    &&& connect_password(options) == Some(config.password)
    &&& connect_database(options) == Some(config.database)
}

/// Sets the five parameters of `config` on `base`, whatever `base` held for
/// them before.
pub fn configure(base: PgConnectOptions, config: &DatabaseConfig) -> (options: PgConnectOptions)
    ensures
        configured_as(options, config@),
{
    let options = with_host(base, config.host.as_str());
    let options = with_port(options, config.port);
    let options = with_username(options, config.username.as_str());
    let options = with_password(options, config.password.as_str());
    with_database(options, config.database.as_str())
}

impl From<DatabaseConfig> for PgConnectOptions {
    /// Options that start from the process environment and connect as
    /// `config` says.
    fn from(config: DatabaseConfig) -> (options: PgConnectOptions)
        ensures
            configured_as(options, config@),
    {
        configure(environment_options(), &config)
    }
}

impl FromSpecImpl<DatabaseConfig> for PgConnectOptions {
    /// The options that `config` does not set come from the environment, so
    /// the conversion is no function of `config` alone.
    open spec fn obeys_from_spec() -> bool {
        false
    }

    open spec fn from_spec(config: DatabaseConfig) -> PgConnectOptions {
        arbitrary()
    }
}

} // verus!
