//! The boundary with sqlx: its connection options, what they hold, and the
//! builder calls that fill them.
//!
//! Nothing in this file is proved. Each contract restates what the body of
//! the sqlx method does to the fields of `PgConnectOptions`.

use vstd::prelude::*;

verus! {

#[verifier::external_type_specification]
#[verifier::external_body]
pub struct ExPgConnectOptions(sqlx::postgres::PgConnectOptions);

/// The host that the options connect to: what `PgConnectOptions::get_host`
/// returns.
pub uninterp spec fn connect_host(options: sqlx::postgres::PgConnectOptions) -> Seq<char>;

/// The port that the options connect to: what `PgConnectOptions::get_port`
/// returns.
pub uninterp spec fn connect_port(options: sqlx::postgres::PgConnectOptions) -> u16;

/// The user that the options connect as: what
/// `PgConnectOptions::get_username` returns.
pub uninterp spec fn connect_username(options: sqlx::postgres::PgConnectOptions) -> Seq<char>;

/// The password that the options answer with when the server asks for one.
/// sqlx has no getter for it: this is the value that
/// `PgConnectOptions::password` stored last, or what the environment gave.
pub uninterp spec fn connect_password(options: sqlx::postgres::PgConnectOptions) -> Option<
    Seq<char>,
>;

/// The database that the options select: what
/// `PgConnectOptions::get_database` returns.
pub uninterp spec fn connect_database(options: sqlx::postgres::PgConnectOptions) -> Option<
    Seq<char>,
>;

/// `PgConnectOptions::new`: options filled from the process environment
/// (the `PG*` variables, the operating system's user name, a password
/// file). No two processes need agree on them, so nothing is claimed.
#[verifier::external_body]
pub(crate) fn environment_options() -> (options: sqlx::postgres::PgConnectOptions) {
    sqlx::postgres::PgConnectOptions::new()
}

/// `PgConnectOptions::host`: stores a copy of `host` as the host and
/// touches no other field.
#[verifier::external_body]
pub(crate) fn with_host(options: sqlx::postgres::PgConnectOptions, host: &str) -> (updated:
    sqlx::postgres::PgConnectOptions)
    ensures
        connect_host(updated) == host@,
        connect_port(updated) == connect_port(options),
        connect_username(updated) == connect_username(options),
        connect_password(updated) == connect_password(options),
        connect_database(updated) == connect_database(options),
{
    options.host(host)
}

/// `PgConnectOptions::port`: stores `port` as the port and touches no other
/// field.
#[verifier::external_body]
pub(crate) fn with_port(options: sqlx::postgres::PgConnectOptions, port: u16) -> (updated:
    sqlx::postgres::PgConnectOptions)
    ensures
        connect_host(updated) == connect_host(options),
        connect_port(updated) == port,
        connect_username(updated) == connect_username(options),
        connect_password(updated) == connect_password(options),
        connect_database(updated) == connect_database(options),
{
    options.port(port)
}

/// `PgConnectOptions::username`: stores a copy of `username` as the user
/// and touches no other field.
#[verifier::external_body]
pub(crate) fn with_username(options: sqlx::postgres::PgConnectOptions, username: &str) -> (updated:
    sqlx::postgres::PgConnectOptions)
    ensures
        connect_host(updated) == connect_host(options),
        connect_port(updated) == connect_port(options),
        connect_username(updated) == username@,
        connect_password(updated) == connect_password(options),
        connect_database(updated) == connect_database(options),
{
    options.username(username)
}

/// `PgConnectOptions::password`: stores a copy of `password` as the
/// password, replacing any earlier one, and touches no other field.
#[verifier::external_body]
pub(crate) fn with_password(options: sqlx::postgres::PgConnectOptions, password: &str) -> (updated:
    sqlx::postgres::PgConnectOptions)
    ensures
        connect_host(updated) == connect_host(options),
        connect_port(updated) == connect_port(options),
        connect_username(updated) == connect_username(options),
        connect_password(updated) == Some(password@),
        connect_database(updated) == connect_database(options),
{
    options.password(password)
}

/// `PgConnectOptions::database`: stores a copy of `database` as the
/// database name, replacing any earlier one, and touches no other field.
#[verifier::external_body]
pub(crate) fn with_database(options: sqlx::postgres::PgConnectOptions, database: &str) -> (updated:
    sqlx::postgres::PgConnectOptions)
    ensures
        connect_host(updated) == connect_host(options),
        connect_port(updated) == connect_port(options),
        connect_username(updated) == connect_username(options),
        connect_password(updated) == connect_password(options),
        connect_database(updated) == Some(database@),
{
    options.database(database)
}

} // verus!
