//! The decisions of the server manager: the single-instance lock, probing
//! whether a server answers on an address, its status and health, and which
//! processes to stop. The network, the file system and child processes are
//! reached by the caller, which hands the outcomes in as plain values.
use vstd::prelude::*;
use crate::decimal::{
    decimal, law_parse_decimal_round_trip, parse_u32_spec, u16_to_decimal, u32_to_decimal,
};
use crate::pids::{listed_pids_in_output, pids_from_output};

verus! {

/// The lock file that marks a running instance.
pub open spec fn lock_file_path_spec() -> Seq<char> {
    "/tmp/surrealmcp.lock"@
}

/// What taking the lock gives: refused (`None`) where the lock file exists,
/// else the text to write into the lock file, the taker's process id in decimal.
pub open spec fn lock_grant(lock_exists: bool, pid: u32) -> Option<Seq<char>> {
    if lock_exists {
        None
    } else {
        Some(decimal(pid as nat))
    }
}

/// Whether releasing the lock removes the lock file: exactly when it exists.
pub open spec fn release_removes(lock_exists: bool) -> bool {
    lock_exists
}

/// Whether the lock file exists after a taker tried to take the lock.
pub open spec fn exists_after_acquire(lock_exists: bool, pid: u32) -> bool {
    lock_exists || lock_grant(lock_exists, pid) is Some
}

/// Whether the lock file exists after the lock was released.
pub open spec fn exists_after_release(lock_exists: bool) -> bool {
    lock_exists && !release_removes(lock_exists)
}

/// The lock admits one holder at a time: a free lock is granted; once a
/// taker tried, the lock file exists and every later taker is refused; after
/// a release the next taker is granted the lock. What the lock file holds
/// reads back as the holder's process id.
pub proof fn law_lock_admits_one_holder(lock_exists: bool, first: u32, second: u32)
    ensures
        lock_grant(false, first) is Some,
        lock_grant(exists_after_acquire(lock_exists, first), second) is None,
        lock_grant(exists_after_release(lock_exists), second) is Some,
        parse_u32_spec(lock_grant(false, first).unwrap()) == Some(first),
{
    law_parse_decimal_round_trip(first);
}

/// Errors that the manager itself reports.
pub enum ManagerError {
    /// The address given to a probe is not a socket address.
    InvalidAddressFormat { address: String },
    /// The address whose port was to be freed is not a socket address.
    InvalidAddress { address: String },
    /// A stop was asked for where no server answers.
    NoServerRunning { address: String },
    /// Nothing listens on the port that was to be freed.
    NoProcessFound { port: u16 },
    /// A start was asked for on an address that is taken.
    AddressInUse { address: String },
    /// The lock file shows that another instance holds the lock.
    AlreadyRunning,
}

/// The text of each error, as the manager reports it.
pub open spec fn error_message(e: ManagerError) -> Seq<char> {
    match e {
        ManagerError::InvalidAddressFormat { address } => "Invalid address format: "@ + address@,
        ManagerError::InvalidAddress { address } => "Invalid address: "@ + address@,
        ManagerError::NoServerRunning { address } => "No server running at "@ + address@,
        ManagerError::NoProcessFound { port } => "No process found on port "@ + decimal(
            port as nat,
        ),
        ManagerError::AddressInUse { address } => "Address "@ + address@
            + " is already in use. Use 'surrealmcp stop' first or check if another server is running."@,
        ManagerError::AlreadyRunning => "Another instance is already running. Use 'surrealmcp stop' first."@,
    }
}

impl ManagerError {
    /// The text of this error.
    pub fn message(&self) -> (m: String)
        ensures
            m@ == error_message(*self),
    {
        match self {
            ManagerError::InvalidAddressFormat { address } => {
                let mut m = String::from_str("Invalid address format: ");
                m.append(address.as_str());
                m
            },
            ManagerError::InvalidAddress { address } => {
                let mut m = String::from_str("Invalid address: ");
                m.append(address.as_str());
                m
            },
            ManagerError::NoServerRunning { address } => {
                let mut m = String::from_str("No server running at ");
                m.append(address.as_str());
                m
            },
            ManagerError::NoProcessFound { port } => {
                let mut m = String::from_str("No process found on port ");
                let digits = u16_to_decimal(*port);
                m.append(digits.as_str());
                m
            },
            ManagerError::AddressInUse { address } => {
                let mut m = String::from_str("Address ");
                m.append(address.as_str());
                m.append(
                    " is already in use. Use 'surrealmcp stop' first or check if another server is running.",
                );
                m
            },
            ManagerError::AlreadyRunning => String::from_str(
                "Another instance is already running. Use 'surrealmcp stop' first.",
            ),
        }
    }
}

/// An error that ends an operation: one of the manager's own, or one that an
/// outside step (a file, a socket, a child process) reported.
pub enum Failure<E> {
    Manager(ManagerError),
    Outside(E),
}

/// How an attempt to connect to an address within the time allowed ended.
#[derive(PartialEq, Eq, Structural, Clone, Copy, Debug)]
pub enum ConnectOutcome {
    /// A connection was made.
    Connected,
    /// The connection was refused or failed before the time ran out.
    Failed,
    /// The time ran out first.
    TimedOut,
}

/// A socket address as the address parser read it: its canonical rendering
/// and its port.
pub struct SocketAddress {
    pub text: String,
    pub port: u16,
}

/// Whether a server answers on an address.
pub struct ServerStatus {
    pub address: SocketAddress,
    pub running: bool,
}

/// The surrealmcp server manager.
pub struct ServerManager;

impl ServerManager {
    /// The path of the lock file that marks a running instance.
    pub fn get_lock_file_path() -> (path: String)
        ensures
            path@ == lock_file_path_spec(),
    {
        String::from_str("/tmp/surrealmcp.lock")
    }

    /// Taking the lock: where the lock file exists the lock is refused
    /// (`None`); otherwise the lock file is to be written with the decimal
    /// process id, and the lock is taken.
    pub fn acquire_lock(lock_exists: bool, pid: u32) -> (contents: Option<String>)
        ensures
            lock_exists <==> contents is None,
            contents matches Some(c) ==> lock_grant(lock_exists, pid) == Some(c@),
    {
        if lock_exists {
            None
        } else {
            Some(u32_to_decimal(pid))
        }
    }

    /// Releasing the lock: the lock file is removed exactly when it exists.
    pub fn release_lock(lock_exists: bool) -> (remove: bool)
        ensures
            remove == release_removes(lock_exists),
    {
        lock_exists
    }

    /// Whether an address counts as free. `outcome` is `None` where the
    /// address did not parse (no connection is tried then). It counts as free
    /// where it did not parse or the connection attempt timed out.
    pub fn check_port_available(outcome: Option<ConnectOutcome>) -> (available: bool)
        ensures
            available == (outcome is None || outcome == Some(ConnectOutcome::TimedOut)),
    {
        match outcome {
            None => true,
            Some(ConnectOutcome::TimedOut) => true,
            Some(_) => false,
        }
    }

    /// Whether a server runs on `address`: an error where the address did
    /// not parse (`outcome` is `None`), else whether a connection was made.
    pub fn is_server_running(address: &str, outcome: Option<ConnectOutcome>) -> (r: Result<
        bool,
        ManagerError,
    >)
        ensures
            outcome is None ==> (r matches Err(ManagerError::InvalidAddressFormat { address: a })
                && a@ == address@),
            outcome matches Some(o) ==> r == Ok::<bool, ManagerError>(
                o == ConnectOutcome::Connected,
            ),
    {
        match outcome {
            None => Err(ManagerError::InvalidAddressFormat { address: address.to_owned() }),
            Some(o) => Ok(o == ConnectOutcome::Connected),
        }
    }

    /// The status of `address` from the probe's result and the parsed
    /// address: the probe's error comes first; then an address that did not
    /// parse is an error; else the parsed address with the probe's answer.
    pub fn get_server_status(
        address: &str,
        running: Result<bool, ManagerError>,
        parsed: Option<SocketAddress>,
    ) -> (r: Result<ServerStatus, ManagerError>)
        ensures
            running matches Err(e) ==> r == Err::<ServerStatus, ManagerError>(e),
            running matches Ok(b) ==> match parsed {
                None => r matches Err(ManagerError::InvalidAddress { address: a }) && a@
                    == address@,
                Some(p) => r == Ok::<ServerStatus, ManagerError>(
                    ServerStatus { address: p, running: b },
                ),
            },
    {
        match running {
            Err(e) => Err(e),
            Ok(b) => match parsed {
                None => Err(ManagerError::InvalidAddress { address: address.to_owned() }),
                Some(p) => Ok(ServerStatus { address: p, running: b }),
            },
        }
    }

    /// The URL of the health endpoint of a server at `address`.
    pub fn health_url(address: &str) -> (url: String)
        ensures
            url@ == "http://"@ + address@ + "/health"@,
    {
        let mut url = String::from_str("http://");
        url.append(address);
        url.append("/health");
        url
    }

    /// Whether the health endpoint reports health: `status` is the HTTP
    /// status of the reply, `None` where the request failed. Healthy exactly
    /// when a reply came with a success status (200 to 299).
    pub fn query_health(status: Option<u16>) -> (healthy: bool)
        ensures
            healthy == (status matches Some(s) && 200 <= s <= 299),
    {
        match status {
            Some(s) => 200 <= s && s <= 299,
            None => false,
        }
    }

    /// Freeing a port, first part: the arguments for listing the processes
    /// that hold the port (`-ti` and `:` followed by the port), or an error
    /// where the address did not parse (`port` is `None`).
    pub fn kill_process_on_port(address: &str, port: Option<u16>) -> (r: Result<
        Vec<String>,
        ManagerError,
    >)
        ensures
            port is None ==> (r matches Err(ManagerError::InvalidAddress { address: a }) && a@
                == address@),
            port matches Some(p) ==> (r matches Ok(args) && args@.len() == 2 && args@[0]@
                == "-ti"@ && args@[1]@ == ":"@ + decimal(p as nat)),
    {
        match port {
            None => Err(ManagerError::InvalidAddress { address: address.to_owned() }),
            Some(p) => {
                let mut target = String::from_str(":");
                let digits = u16_to_decimal(p);
                target.append(digits.as_str());
                Ok(vec![String::from_str("-ti"), target])
            },
        }
    }

    /// Freeing a port, second part: from the raw output of the listing, the
    /// processes to kill. Empty output means nothing holds the port, an error;
    /// else every line that reads as a process id gives one.
    pub fn processes_to_kill(port: u16, output: &[u8]) -> (r: Result<Vec<u32>, ManagerError>)
        ensures
            output@.len() == 0 ==> r == Err::<Vec<u32>, ManagerError>(
                ManagerError::NoProcessFound { port },
            ),
            output@.len() > 0 ==> (r matches Ok(pids) && pids@ == listed_pids_in_output(
                output@,
            )),
    {
        if output.len() == 0 {
            Err(ManagerError::NoProcessFound { port })
        } else {
            Ok(pids_from_output(output))
        }
    }

    /// Freeing a port, third part: the arguments that kill one process at
    /// once (`-9` and its id).
    pub fn kill_arguments(pid: u32) -> (args: Vec<String>)
        ensures
            args@.len() == 2,
            args@[0]@ == "-9"@,
            args@[1]@ == decimal(pid as nat),
    {
        vec![String::from_str("-9"), u32_to_decimal(pid)]
    }
}

} // verus!
