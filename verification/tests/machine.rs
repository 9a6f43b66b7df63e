use pool_startup::config::Config;
use pool_startup::config::ConnectionString;
use pool_startup::errors::ConfigError;
use pool_startup::errors::DriverFault;
use pool_startup::errors::PoolError;
use pool_startup::errors::StartupError;
use pool_startup::pool::ConnectOutcome;
use pool_startup::pool::create_pool;
use pool_startup::pool::run_application;
use pool_startup::startup::Diagnostic;
use pool_startup::startup::DiagnosticLevel;
use pool_startup::startup::StartupState;
use pool_startup::startup::startup;

#[test]
fn established_outcome_yields_ready_pool() {
    let conn = ConnectionString::new("sqlite://:memory:".to_string()).unwrap();
    let pool = create_pool(conn, ConnectOutcome::Established).unwrap();
    assert_eq!(pool.target().as_str(), "sqlite://:memory:");
}

#[test]
fn refused_outcome_wraps_the_cause() {
    let conn = ConnectionString::new("sqlite://untouchable.db".to_string()).unwrap();
    let fault = DriverFault {
        detail: "unable to open database file".to_string(),
    };
    let r = create_pool(conn, ConnectOutcome::Refused(fault));
    match r {
        Err(PoolError::ConnectionFailed(f)) => {
            assert_eq!(f.detail, "unable to open database file");
        }
        Ok(_) => panic!("no pool may be returned on a refused connection"),
    }
}

#[test]
fn pool_error_message_carries_cause() {
    let e = PoolError::ConnectionFailed(DriverFault {
        detail: "no such file".to_string(),
    });
    assert_eq!(e.message(), "Database connection error: no such file");
}

#[test]
fn success_path_orders_diagnostics() {
    let cfg = Config {
        database_url: Some("sqlite://:memory:".to_string()),
    };
    let (mut m, request) = startup(&cfg);
    let target = request.expect("a connection request is owed after resolution");
    assert_eq!(target.as_str(), "sqlite://:memory:");
    assert!(matches!(m.state(), StartupState::ConfigResolved(_)));
    assert_eq!(m.log().len(), 1);
    assert!(matches!(&m.log()[0], Diagnostic::TargetResolved(_)));
    m.connected(ConnectOutcome::Established);
    assert_eq!(m.log().len(), 2);
    assert!(matches!(&m.log()[0], Diagnostic::TargetResolved(_)));
    assert!(matches!(&m.log()[1], Diagnostic::PoolEstablished));
    assert_eq!(m.log()[0].level(), DiagnosticLevel::Informational);
    assert_eq!(m.log()[1].level(), DiagnosticLevel::Informational);
    let pool = m.into_result().unwrap();
    assert_eq!(pool.target().as_str(), "sqlite://:memory:");
    assert!(run_application(pool).is_ok());
}

#[test]
fn missing_config_requests_no_connection() {
    let cfg = Config { database_url: None };
    let (m, request) = startup(&cfg);
    assert!(request.is_none());
    assert_eq!(m.log().len(), 1);
    assert!(matches!(
        &m.log()[0],
        Diagnostic::StartupFailed(StartupError::Config(ConfigError::Missing))
    ));
    assert_eq!(m.log()[0].level(), DiagnosticLevel::Error);
    let e = m.into_result().unwrap_err();
    assert!(matches!(e, StartupError::Config(ConfigError::Missing)));
    assert!(e.message().contains("Environment variable not set"));
}

#[test]
fn refused_connection_fails_with_cause() {
    let cfg = Config {
        database_url: Some("sqlite:///nowhere.db".to_string()),
    };
    let (mut m, request) = startup(&cfg);
    assert!(request.is_some());
    m.connected(ConnectOutcome::Refused(DriverFault {
        detail: "unable to open database file".to_string(),
    }));
    assert_eq!(m.log().len(), 2);
    assert!(matches!(&m.log()[0], Diagnostic::TargetResolved(_)));
    assert!(matches!(&m.log()[1], Diagnostic::StartupFailed(_)));
    assert_eq!(m.log()[1].level(), DiagnosticLevel::Error);
    match m.into_result() {
        Err(StartupError::Pool(PoolError::ConnectionFailed(f))) => {
            assert_eq!(f.detail, "unable to open database file");
        }
        _ => panic!("a refused connection must fail the startup"),
    }
}
