use axum::http::StatusCode;
use health_service::config::DatabaseConfig;
use health_service::health::{health_check, health_check_db, Status, PROBE_QUERY};
use sqlx::postgres::{PgConnectOptions, PgPoolOptions, PgRow};
use std::time::Duration;

/// One probe of the database that `config` names, as the service makes it,
/// but giving up after `patience` instead of the pool's default.
fn probe(config: DatabaseConfig, patience: Duration) -> Result<PgRow, sqlx::Error> {
    let runtime = tokio::runtime::Builder::new_current_thread()
        .enable_all()
        .build()
        .expect("a Tokio runtime");
    runtime.block_on(async {
        let options: PgConnectOptions = config.into();
        let pool = PgPoolOptions::new()
            .acquire_timeout(patience)
            .connect_lazy_with(options);
        sqlx::query(PROBE_QUERY).fetch_one(&pool).await
    })
}

fn nobody_listening() -> DatabaseConfig {
    DatabaseConfig {
        host: "127.0.0.1".to_string(),
        port: 1,
        username: "app".to_string(),
        password: "passwd".to_string(),
        database: "app".to_string(),
    }
}

#[test]
fn test_health_check() {
    let response = health_check();
    assert_eq!(response, Status::Success);
    assert_eq!(response.code(), StatusCode::OK.as_u16());
}

#[test]
fn test_health_check_db() {
    let row: Result<(), sqlx::Error> = Ok(());
    let response = health_check_db(&row);
    assert_eq!(response, Status::Success);
    assert_eq!(response.code(), StatusCode::OK.as_u16());
}

#[test]
fn probe_is_select_one() {
    assert_eq!(PROBE_QUERY, "SELECT 1");
}

#[test]
fn status_codes_are_200_and_500() {
    assert_eq!(Status::Success.code(), 200);
    assert_eq!(Status::ServerError.code(), 500);
    assert_eq!(
        StatusCode::from_u16(Status::ServerError.code()).unwrap(),
        StatusCode::INTERNAL_SERVER_ERROR
    );
    assert_eq!(
        StatusCode::from_u16(Status::Success.code()).unwrap(),
        StatusCode::OK
    );
}

#[test]
fn only_200_is_a_success() {
    assert!(Status::Success.is_success());
    assert!(!Status::ServerError.is_success());
    assert_eq!(
        Status::Success.is_success(),
        StatusCode::OK.is_success()
    );
    assert_eq!(
        Status::ServerError.is_success(),
        StatusCode::INTERNAL_SERVER_ERROR.is_success()
    );
}

#[test]
fn liveness_ignores_the_database() {
    // Nothing was configured and no database was contacted.
    assert_eq!(health_check().code(), 200);
    // A failed probe just before changes nothing.
    let failed: Result<(), sqlx::Error> = Err(sqlx::Error::PoolClosed);
    assert_eq!(health_check_db(&failed).code(), 500);
    assert_eq!(health_check().code(), 200);
}

#[test]
fn readiness_follows_the_probe() {
    let answered: Result<u8, String> = Ok(1);
    let refused: Result<u8, String> = Err("connection refused".to_string());
    assert_eq!(health_check_db(&answered), Status::Success);
    assert_eq!(health_check_db(&refused), Status::ServerError);
    assert_eq!(health_check_db(&answered).code(), 200);
    assert_eq!(health_check_db(&refused).code(), 500);
}

#[test]
fn every_failure_is_a_500() {
    let refused = std::io::Error::from(std::io::ErrorKind::ConnectionRefused);
    let failures: Vec<sqlx::Error> = vec![
        sqlx::Error::Io(refused),
        sqlx::Error::PoolTimedOut,
        sqlx::Error::PoolClosed,
        sqlx::Error::RowNotFound,
        sqlx::Error::Protocol("password authentication failed".to_string()),
        sqlx::Error::WorkerCrashed,
    ];
    for failure in failures {
        let row: Result<PgRow, sqlx::Error> = Err(failure);
        assert_eq!(health_check_db(&row), Status::ServerError);
        assert_eq!(
            health_check_db(&row).code(),
            StatusCode::INTERNAL_SERVER_ERROR.as_u16()
        );
    }
}

#[test]
fn stopped_database_gives_500() {
    let row = probe(nobody_listening(), Duration::from_millis(300));
    assert!(row.is_err());
    assert_eq!(health_check_db(&row).code(), 500);
    // Liveness is untouched by the database being down.
    assert_eq!(health_check().code(), 200);
}

#[test]
fn two_requests_do_not_disturb_each_other() {
    let first: Result<(), sqlx::Error> = Ok(());
    let second: Result<(), sqlx::Error> = Ok(());
    let a = health_check_db(&first);
    let b = health_check_db(&second);
    assert_eq!(a.code(), 200);
    assert_eq!(b.code(), 200);
    // A failure between two successes leaves no trace.
    let broken: Result<(), sqlx::Error> = Err(sqlx::Error::PoolTimedOut);
    assert_eq!(health_check_db(&broken).code(), 500);
    assert_eq!(health_check_db(&first).code(), 200);
    assert_eq!(health_check_db(&second).code(), 200);
}

#[test]
fn the_outcome_is_only_read() {
    let row: Result<String, String> = Ok("1".to_string());
    let _ = health_check_db(&row);
    assert_eq!(row, Ok("1".to_string()));
}
