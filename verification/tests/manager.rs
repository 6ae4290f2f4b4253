use surrealmcp::manager::{ConnectOutcome, ManagerError, ServerManager, ServerStatus, SocketAddress};

#[test]
fn lock_file_path() {
    assert_eq!(ServerManager::get_lock_file_path(), "/tmp/surrealmcp.lock");
}

#[test]
fn acquire_lock_writes_pid_when_free() {
    assert_eq!(ServerManager::acquire_lock(false, 4711), Some("4711".to_string()));
    assert_eq!(ServerManager::acquire_lock(false, 0), Some("0".to_string()));
}

#[test]
fn acquire_lock_refused_when_held() {
    assert_eq!(ServerManager::acquire_lock(true, 4711), None);
}

#[test]
fn release_lock_removes_only_existing() {
    assert!(ServerManager::release_lock(true));
    assert!(!ServerManager::release_lock(false));
}

#[test]
fn lock_protocol_on_values() {
    // A free lock is taken; the file then exists, so a second taker is refused;
    // after the release the lock can be taken again.
    let first = ServerManager::acquire_lock(false, 10);
    assert!(first.is_some());
    let exists = first.is_some();
    assert_eq!(ServerManager::acquire_lock(exists, 11), None);
    let removed = ServerManager::release_lock(exists);
    assert!(removed);
    assert_eq!(ServerManager::acquire_lock(!removed, 12), Some("12".to_string()));
}

#[test]
fn port_available_only_on_timeout_or_bad_address() {
    assert!(ServerManager::check_port_available(None));
    assert!(ServerManager::check_port_available(Some(ConnectOutcome::TimedOut)));
    assert!(!ServerManager::check_port_available(Some(ConnectOutcome::Connected)));
    assert!(!ServerManager::check_port_available(Some(ConnectOutcome::Failed)));
}

#[test]
fn server_running_only_when_connected() {
    assert!(matches!(ServerManager::is_server_running("127.0.0.1:8090", Some(ConnectOutcome::Connected)), Ok(true)));
    assert!(matches!(ServerManager::is_server_running("127.0.0.1:8090", Some(ConnectOutcome::Failed)), Ok(false)));
    assert!(matches!(ServerManager::is_server_running("127.0.0.1:8090", Some(ConnectOutcome::TimedOut)), Ok(false)));
}

#[test]
fn server_running_refuses_bad_address() {
    match ServerManager::is_server_running("not an address", None) {
        Err(e) => {
            assert!(matches!(&e, ManagerError::InvalidAddressFormat { address } if address == "not an address"));
            assert_eq!(e.message(), "Invalid address format: not an address");
        }
        Ok(_) => panic!("expected an error"),
    }
}

fn addr(text: &str, port: u16) -> SocketAddress {
    SocketAddress { text: text.to_string(), port }
}

#[test]
fn status_from_probe_and_address() {
    let st = ServerManager::get_server_status("127.0.0.1:8090", Ok(true), Some(addr("127.0.0.1:8090", 8090))).ok().unwrap();
    assert!(st.running);
    assert_eq!(st.address.text, "127.0.0.1:8090");
    assert_eq!(st.address.port, 8090);
    let st: ServerStatus = ServerManager::get_server_status("[::1]:09", Ok(false), Some(addr("[::1]:9", 9))).ok().unwrap();
    assert!(!st.running);
    assert_eq!(st.address.text, "[::1]:9");
}

#[test]
fn status_errors() {
    let probe_error = ServerManager::get_server_status(
        "x",
        Err(ManagerError::InvalidAddressFormat { address: "x".to_string() }),
        None,
    );
    assert!(matches!(probe_error, Err(ManagerError::InvalidAddressFormat { .. })));
    let parse_error = ServerManager::get_server_status("y", Ok(true), None);
    assert!(matches!(parse_error, Err(ManagerError::InvalidAddress { address }) if address == "y"));
}

#[test]
fn health_url_and_result() {
    assert_eq!(ServerManager::health_url("127.0.0.1:8090"), "http://127.0.0.1:8090/health");
    assert!(ServerManager::query_health(Some(200)));
    assert!(ServerManager::query_health(Some(204)));
    assert!(ServerManager::query_health(Some(299)));
    assert!(!ServerManager::query_health(Some(199)));
    assert!(!ServerManager::query_health(Some(300)));
    assert!(!ServerManager::query_health(Some(503)));
    assert!(!ServerManager::query_health(None));
}

#[test]
fn kill_lists_the_port() {
    let args = ServerManager::kill_process_on_port("127.0.0.1:8090", Some(8090)).ok().unwrap();
    assert_eq!(args, vec!["-ti".to_string(), ":8090".to_string()]);
    let err = ServerManager::kill_process_on_port("bad", None);
    assert!(matches!(&err, Err(ManagerError::InvalidAddress { address }) if address == "bad"));
    assert_eq!(err.err().unwrap().message(), "Invalid address: bad");
}

#[test]
fn processes_to_kill_from_listing() {
    assert_eq!(ServerManager::processes_to_kill(8090, b"101\n202\n").ok().unwrap(), vec![101, 202]);
    assert_eq!(ServerManager::processes_to_kill(8090, b"junk\n").ok().unwrap(), Vec::<u32>::new());
    let none = ServerManager::processes_to_kill(8090, b"");
    assert!(matches!(none, Err(ManagerError::NoProcessFound { port: 8090 })));
    assert_eq!(none.err().unwrap().message(), "No process found on port 8090");
}

#[test]
fn kill_arguments_for_pid() {
    assert_eq!(ServerManager::kill_arguments(4711), vec!["-9".to_string(), "4711".to_string()]);
}

#[test]
fn error_messages() {
    assert_eq!(
        ManagerError::NoServerRunning { address: "127.0.0.1:8090".to_string() }.message(),
        "No server running at 127.0.0.1:8090"
    );
    assert_eq!(
        ManagerError::AddressInUse { address: "0.0.0.0:80".to_string() }.message(),
        "Address 0.0.0.0:80 is already in use. Use 'surrealmcp stop' first or check if another server is running."
    );
    assert_eq!(
        ManagerError::AlreadyRunning.message(),
        "Another instance is already running. Use 'surrealmcp stop' first."
    );
}
