use surrealmcp::commands::{non_empty, restart_config, start_config, Cli, Commands, ServerConfig};
use surrealmcp::manager::{Failure, ManagerError, ServerStatus, SocketAddress};
use surrealmcp::session::{Action, Event, Message, Session, RESTART_SETTLE_MILLIS};

type S = Session<String>;
type A = Action<String>;
type E = Event<String>;

fn start_cli(bind_address: Option<&str>) -> Cli {
    Cli {
        command: Commands::Start {
            endpoint: Some("".to_string()),
            ns: Some("ns".to_string()),
            db: Some("db".to_string()),
            user: None,
            pass: None,
            bind_address: bind_address.map(|s| s.to_string()),
            socket_path: Some("".to_string()),
            rate_limit_rps: 100,
            rate_limit_burst: 200,
            auth_disabled: false,
            server_url: "https://mcp.surrealdb.com".to_string(),
            auth_server: "https://auth.surrealdb.com".to_string(),
            auth_audience: "https://mcp.surrealdb.com/".to_string(),
            cloud_access_token: None,
            cloud_refresh_token: None,
        },
    }
}

fn restart_cli(new_bind_address: Option<&str>) -> Cli {
    Cli {
        command: Commands::Restart {
            bind_address: "127.0.0.1:8090".to_string(),
            force: false,
            endpoint: Some("ws://localhost:8000".to_string()),
            ns: None,
            db: None,
            user: None,
            pass: None,
            new_bind_address: new_bind_address.map(|s| s.to_string()),
            socket_path: None,
            rate_limit_rps: None,
            rate_limit_burst: Some(50),
            auth_disabled: None,
            server_url: None,
            auth_server: None,
            auth_audience: Some("aud".to_string()),
            cloud_access_token: None,
            cloud_refresh_token: None,
        },
    }
}

fn step(s: &mut S, e: E) -> A {
    assert!(s.accepts(&e));
    s.step(e)
}

fn report_text(a: &A) -> String {
    match a {
        Action::Report { message } => message.text(),
        _ => panic!("expected a line to print"),
    }
}

fn ok() -> E {
    Event::Completed { result: Ok(()) }
}

#[test]
fn non_empty_drops_empty_text() {
    assert_eq!(non_empty(Some("".to_string())), None);
    assert_eq!(non_empty(Some("x".to_string())), Some("x".to_string()));
    assert_eq!(non_empty(None), None);
}

#[test]
fn start_config_filters_empty_arguments() {
    let c: ServerConfig = start_config(
        Some("".to_string()), None, None, None, None, Some("".to_string()), Some("/tmp/s".to_string()),
        7, 8, true, "u".to_string(), "a".to_string(), "b".to_string(), None, Some("r".to_string()),
    );
    assert_eq!(c.endpoint, None);
    assert_eq!(c.bind_address, None);
    assert_eq!(c.socket_path, Some("/tmp/s".to_string()));
    assert_eq!((c.rate_limit_rps, c.rate_limit_burst, c.auth_disabled), (7, 8, true));
    assert_eq!(c.cloud_refresh_token, Some("r".to_string()));
}

#[test]
fn restart_config_uses_defaults() {
    let c = restart_config(
        &"127.0.0.1:8090".to_string(), None, None, None, None, None, &Some("".to_string()), None,
        None, None, None, None, None, None, None, None,
    );
    assert_eq!(c.server_url, "https://mcp.surrealdb.com");
    assert_eq!(c.auth_server, "https://auth.surrealdb.com");
    assert_eq!(c.auth_audience, "https://mcp.surrealdb.com/");
    assert_eq!((c.rate_limit_rps, c.rate_limit_burst, c.auth_disabled), (100, 200, false));
    assert_eq!(c.bind_address, Some("127.0.0.1:8090".to_string()));
    let c = restart_config(
        &"127.0.0.1:8090".to_string(), None, None, None, None, None, &Some("0.0.0.0:9000".to_string()),
        Some("".to_string()), Some(5), Some(6), Some(true), Some("s".to_string()), None, None, None, None,
    );
    assert_eq!(c.bind_address, Some("0.0.0.0:9000".to_string()));
    assert_eq!(c.socket_path, None);
    assert_eq!((c.rate_limit_rps, c.rate_limit_burst, c.auth_disabled), (5, 6, true));
    assert_eq!(c.server_url, "s");
}

#[test]
fn start_checks_port_then_locks_then_serves_then_releases() {
    let (mut s, first): (S, A) = Session::new(start_cli(Some("127.0.0.1:8090")));
    assert!(matches!(&first, Action::CheckPort { address } if address == "127.0.0.1:8090"));
    assert!(matches!(step(&mut s, Event::PortChecked { available: Ok(false) }), Action::AcquireLock));
    match step(&mut s, Event::LockTaken { acquired: Ok(true) }) {
        Action::StartServer { config } => {
            assert_eq!(config.bind_address, Some("127.0.0.1:8090".to_string()));
            assert_eq!(config.endpoint, None);
            assert_eq!(config.socket_path, None);
            assert_eq!(config.ns, Some("ns".to_string()));
        }
        _ => panic!("expected the server to start"),
    }
    let exit: E = Event::Completed { result: Err(Failure::Outside("server crashed".to_string())) };
    assert!(matches!(step(&mut s, exit), Action::ReleaseLock));
    let released: E = Event::Completed { result: Err(Failure::Outside("rm failed".to_string())) };
    match step(&mut s, released) {
        Action::Finish { result: Err(Failure::Outside(m)) } => assert_eq!(m, "server crashed"),
        _ => panic!("expected the server's result"),
    }
    assert!(s.is_finished());
}

#[test]
fn start_without_address_goes_to_the_lock() {
    let (mut s, first): (S, A) = Session::new(start_cli(Some("")));
    assert!(matches!(first, Action::AcquireLock));
    assert!(matches!(step(&mut s, Event::LockTaken { acquired: Ok(true) }), Action::StartServer { .. }));
    assert!(matches!(step(&mut s, ok()), Action::ReleaseLock));
    assert!(matches!(step(&mut s, ok()), Action::Finish { result: Ok(()) }));
    let (_, first): (S, A) = Session::new(start_cli(None));
    assert!(matches!(first, Action::AcquireLock));
}

#[test]
fn start_refuses_taken_address() {
    let (mut s, _): (S, A) = Session::new(start_cli(Some("127.0.0.1:8090")));
    match step(&mut s, Event::PortChecked { available: Ok(true) }) {
        Action::Finish { result: Err(Failure::Manager(e)) } => assert_eq!(
            e.message(),
            "Address 127.0.0.1:8090 is already in use. Use 'surrealmcp stop' first or check if another server is running."
        ),
        _ => panic!("expected AddressInUse"),
    }
    assert!(s.is_finished());
}

#[test]
fn start_refuses_when_lock_held() {
    let (mut s, _): (S, A) = Session::new(start_cli(None));
    match step(&mut s, Event::LockTaken { acquired: Ok(false) }) {
        Action::Finish { result: Err(Failure::Manager(ManagerError::AlreadyRunning)) } => {}
        _ => panic!("expected AlreadyRunning"),
    }
}

#[test]
fn stop_command_prints_around_the_stop() {
    let cli = Cli { command: Commands::Stop { bind_address: "127.0.0.1:8090".to_string(), force: true } };
    let (mut s, first): (S, A) = Session::new(cli);
    assert_eq!(report_text(&first), "Stopping server at 127.0.0.1:8090...");
    assert!(matches!(step(&mut s, Event::Reported), Action::Probe { address } if address == "127.0.0.1:8090"));
    assert!(matches!(step(&mut s, Event::Probed { running: Ok(true) }), Action::Kill { .. }));
    assert!(matches!(step(&mut s, ok()), Action::Probe { .. }));
    assert!(matches!(step(&mut s, Event::Probed { running: Ok(false) }), Action::Probe { .. }));
    assert!(matches!(step(&mut s, Event::Probed { running: Ok(false) }), Action::ReleaseLock));
    let a = step(&mut s, ok());
    assert_eq!(report_text(&a), "Server stopped successfully.");
    assert!(matches!(step(&mut s, Event::Reported), Action::Finish { result: Ok(()) }));
    assert!(s.is_finished());
}

#[test]
fn stop_command_without_server_fails() {
    let cli = Cli { command: Commands::Stop { bind_address: "127.0.0.1:8090".to_string(), force: false } };
    let (mut s, _): (S, A) = Session::new(cli);
    step(&mut s, Event::Reported);
    match step(&mut s, Event::Probed { running: Ok(false) }) {
        Action::Finish { result: Err(Failure::Manager(e)) } => {
            assert_eq!(e.message(), "No server running at 127.0.0.1:8090")
        }
        _ => panic!("expected NoServerRunning"),
    }
}

fn status_of(text: &str, running: bool) -> ServerStatus {
    ServerStatus { address: SocketAddress { text: text.to_string(), port: 8090 }, running }
}

#[test]
fn status_of_running_server_reports_health() {
    let cli = Cli { command: Commands::Status { bind_address: "localhost:8090".to_string() } };
    let (mut s, first): (S, A) = Session::new(cli);
    assert!(matches!(&first, Action::GetStatus { address } if address == "localhost:8090"));
    let a = step(&mut s, Event::StatusRead { status: Ok(status_of("127.0.0.1:8090", true)) });
    assert!(matches!(&a, Action::QueryHealth { address } if address == "127.0.0.1:8090"));
    let a = step(&mut s, Event::HealthRead { healthy: true });
    assert_eq!(report_text(&a), "Server is running at 127.0.0.1:8090 (health: ok)");
    assert!(matches!(step(&mut s, Event::Reported), Action::Finish { result: Ok(()) }));
}

#[test]
fn status_of_unhealthy_server() {
    let cli = Cli { command: Commands::Status { bind_address: "127.0.0.1:8090".to_string() } };
    let (mut s, _): (S, A) = Session::new(cli);
    step(&mut s, Event::StatusRead { status: Ok(status_of("127.0.0.1:8090", true)) });
    let a = step(&mut s, Event::HealthRead { healthy: false });
    assert_eq!(report_text(&a), "Server is running at 127.0.0.1:8090 (health: unhealthy)");
}

#[test]
fn status_of_absent_server_uses_given_address() {
    let cli = Cli { command: Commands::Status { bind_address: "localhost:8090".to_string() } };
    let (mut s, _): (S, A) = Session::new(cli);
    let a = step(&mut s, Event::StatusRead { status: Ok(status_of("127.0.0.1:8090", false)) });
    assert_eq!(report_text(&a), "Server is not running at localhost:8090");
}

#[test]
fn status_error_ends_command() {
    let cli = Cli { command: Commands::Status { bind_address: "bad".to_string() } };
    let (mut s, _): (S, A) = Session::new(cli);
    let err = Failure::Manager(ManagerError::InvalidAddressFormat { address: "bad".to_string() });
    match step(&mut s, Event::StatusRead { status: Err(err) }) {
        Action::Finish { result: Err(Failure::Manager(e)) } => assert_eq!(e.message(), "Invalid address format: bad"),
        _ => panic!("expected the error"),
    }
}

#[test]
fn restart_of_running_server() {
    let (mut s, first): (S, A) = Session::new(restart_cli(Some("0.0.0.0:9000")));
    assert!(matches!(&first, Action::Probe { address } if address == "127.0.0.1:8090"));
    let a = step(&mut s, Event::Probed { running: Ok(true) });
    assert_eq!(report_text(&a), "Stopping server at 127.0.0.1:8090...");
    assert!(matches!(step(&mut s, Event::Reported), Action::Probe { .. }));
    assert!(matches!(step(&mut s, Event::Probed { running: Ok(true) }), Action::GracefulShutdown { .. }));
    assert!(matches!(step(&mut s, ok()), Action::Probe { .. }));
    assert!(matches!(step(&mut s, Event::Probed { running: Ok(false) }), Action::Probe { .. }));
    assert!(matches!(step(&mut s, Event::Probed { running: Ok(false) }), Action::ReleaseLock));
    let a = step(&mut s, ok());
    assert_eq!(report_text(&a), "Server stopped.");
    assert!(matches!(step(&mut s, Event::Reported), Action::Sleep { millis } if millis == RESTART_SETTLE_MILLIS));
    assert!(matches!(step(&mut s, Event::Slept), Action::AcquireLock));
    let a = step(&mut s, Event::LockTaken { acquired: Ok(true) });
    assert_eq!(report_text(&a), "Starting server at 0.0.0.0:9000...");
    match step(&mut s, Event::Reported) {
        Action::StartServer { config } => {
            assert_eq!(config.bind_address, Some("0.0.0.0:9000".to_string()));
            assert_eq!(config.rate_limit_burst, 50);
            assert_eq!(config.rate_limit_rps, 100);
            assert_eq!(config.auth_audience, "aud");
            assert_eq!(config.endpoint, Some("ws://localhost:8000".to_string()));
        }
        _ => panic!("expected the server to start"),
    }
    assert!(matches!(step(&mut s, ok()), Action::ReleaseLock));
    assert!(matches!(step(&mut s, ok()), Action::Finish { result: Ok(()) }));
}

#[test]
fn restart_without_running_server_just_starts() {
    let (mut s, _): (S, A) = Session::new(restart_cli(None));
    assert!(matches!(step(&mut s, Event::Probed { running: Ok(false) }), Action::Sleep { millis: 500 }));
    assert!(matches!(step(&mut s, Event::Slept), Action::AcquireLock));
    let a = step(&mut s, Event::LockTaken { acquired: Ok(true) });
    assert_eq!(report_text(&a), "Starting server at 127.0.0.1:8090...");
}

#[test]
fn messages_text() {
    assert_eq!(Message::ServerStopped.text(), "Server stopped.");
    assert_eq!(Message::NotRunning { address: "a:1".to_string() }.text(), "Server is not running at a:1");
}

#[test]
fn every_command_ends_within_bound() {
    // A stubborn server during a forced restart: the longest path.
    let mut cli = restart_cli(None);
    if let Commands::Restart { force, .. } = &mut cli.command {
        *force = false;
    }
    let (mut s, _): (S, A) = Session::new(cli);
    let mut steps = 0;
    let mut action = step(&mut s, Event::Probed { running: Ok(true) });
    steps += 1;
    while !s.is_finished() {
        let e: E = match &action {
            Action::Report { .. } => Event::Reported,
            Action::Probe { .. } => Event::Probed { running: Ok(true) },
            Action::Sleep { .. } => Event::Slept,
            Action::AcquireLock => Event::LockTaken { acquired: Ok(true) },
            Action::CheckPort { .. } => Event::PortChecked { available: Ok(false) },
            _ => ok(),
        };
        action = step(&mut s, e);
        steps += 1;
    }
    assert!(steps <= 34);
    assert!(matches!(action, Action::Finish { result: Ok(()) }));
}
