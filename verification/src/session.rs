//! Running one command of the command line, as a machine that decides each
//! next step from the outcome of the last one. The caller performs each action
//! (probing an address, taking or releasing the lock, running the server,
//! printing a line, sleeping) and hands the outcome back.
use vstd::prelude::*;
use crate::commands::{Cli, Commands, ServerConfig, restart_config, start_config, choose_restart_address, is_start_config, is_restart_config, non_empty_spec, restart_address};
use crate::manager::{Failure, ManagerError, ServerStatus};
use crate::stop::{
    StopAction, StopEvent, StopPhase, StopServer, accepts, law_stop_step_progresses, phase_ok,
    steps_left, stop_step,
};

verus! {

/// How long a restart waits for the port to be given up, in milliseconds.
pub const RESTART_SETTLE_MILLIS: u64 = 500;

/// Which command a session runs.
#[derive(PartialEq, Eq, Structural, Clone, Copy, Debug)]
pub enum CommandKind {
    Start,
    Stop,
    Status,
    Restart,
}

/// Where a session stands.
#[derive(PartialEq, Eq, Structural, Clone, Copy, Debug)]
pub enum Stage {
    /// Waiting to learn whether the bind address counts as free.
    CheckingPort,
    /// Waiting for the lock.
    TakingLock,
    /// Waiting for the start to be announced.
    Announcing,
    /// Waiting for the server to exit.
    Serving,
    /// Waiting for the lock to be released after the server exited.
    Releasing,
    /// Waiting for the stop to be announced.
    AnnouncingStop,
    /// A stop is in progress.
    Stopping,
    /// Waiting for the end of the stop to be announced.
    ConfirmingStop,
    /// Waiting for the status of the address.
    ReadingStatus,
    /// Waiting for the health of a running server.
    CheckingHealth,
    /// Waiting for the status to be printed.
    Reporting,
    /// Waiting to learn whether a server runs before a restart.
    Probing,
    /// Waiting for the port to be given up before a restart starts the server.
    Settling,
    /// The command is over.
    Finished,
}

/// A line that a command prints.
pub enum Message {
    StoppingServer { address: String },
    ServerStopped,
    ServerStoppedSuccessfully,
    StartingServer { address: String },
    Running { address: String, healthy: bool },
    NotRunning { address: String },
}

/// The text of each line.
pub open spec fn message_text(m: Message) -> Seq<char> {
    match m {
        Message::StoppingServer { address } => "Stopping server at "@ + address@ + "..."@,
        Message::ServerStopped => "Server stopped."@,
        Message::ServerStoppedSuccessfully => "Server stopped successfully."@,
        Message::StartingServer { address } => "Starting server at "@ + address@ + "..."@,
        Message::Running { address, healthy } => "Server is running at "@ + address@
            + " (health: "@ + (if healthy {
            "ok"@
        } else {
            "unhealthy"@
        }) + ")"@,
        Message::NotRunning { address } => "Server is not running at "@ + address@,
    }
}

impl Message {
    /// The text of this line.
    pub fn text(&self) -> (t: String)
        ensures
            t@ == message_text(*self),
    {
        match self {
            Message::StoppingServer { address } => {
                let mut t = String::from_str("Stopping server at ");
                t.append(address.as_str());
                t.append("...");
                t
            },
            Message::ServerStopped => String::from_str("Server stopped."),
            Message::ServerStoppedSuccessfully => String::from_str("Server stopped successfully."),
            Message::StartingServer { address } => {
                let mut t = String::from_str("Starting server at ");
                t.append(address.as_str());
                t.append("...");
                t
            },
            Message::Running { address, healthy } => {
                let mut t = String::from_str("Server is running at ");
                t.append(address.as_str());
                t.append(" (health: ");
                if *healthy {
                    t.append("ok");
                } else {
                    t.append("unhealthy");
                }
                t.append(")");
                t
            },
            Message::NotRunning { address } => {
                let mut t = String::from_str("Server is not running at ");
                t.append(address.as_str());
                t
            },
        }
    }
}

/// What the caller is to do next.
pub enum Action<E> {
    /// Learn whether the address counts as free.
    CheckPort { address: String },
    /// Take the single-instance lock.
    AcquireLock,
    /// Release the single-instance lock.
    ReleaseLock,
    /// Run the server until it exits.
    StartServer { config: ServerConfig },
    /// Probe whether a server answers on the address.
    Probe { address: String },
    /// Read the status of the address.
    GetStatus { address: String },
    /// Ask the server at the address for its health.
    QueryHealth { address: String },
    /// Kill the processes that hold the address's port.
    Kill { address: String },
    /// Ask the server at the address to shut down.
    GracefulShutdown { address: String },
    /// Sleep for this many milliseconds.
    Sleep { millis: u64 },
    /// Print a line.
    Report { message: Message },
    /// The command is over, with this result.
    Finish { result: Result<(), Failure<E>> },
}

/// The outcome of the last action.
pub enum Event<E> {
    /// Whether the address counts as free.
    PortChecked { available: Result<bool, Failure<E>> },
    /// Whether the lock was taken.
    LockTaken { acquired: Result<bool, Failure<E>> },
    /// Whether a server answers.
    Probed { running: Result<bool, Failure<E>> },
    /// The status of the address.
    StatusRead { status: Result<ServerStatus, Failure<E>> },
    /// Whether the server reported health.
    HealthRead { healthy: bool },
    /// A lock release, a server run, a kill or a shutdown ended so.
    Completed { result: Result<(), Failure<E>> },
    /// A sleep ended.
    Slept,
    /// A line was printed.
    Reported,
}

/// One command in progress.
pub struct Session<E> {
    pub command: CommandKind,
    pub stage: Stage,
    /// The address the command is about (stop, status, restart).
    pub address: String,
    /// The address checked before the lock is taken (start).
    pub check_address: Option<String>,
    /// The address to print later: where a restart starts the server, or
    /// the address whose health is asked for.
    pub target: Option<String>,
    /// What the server is to be started with, until it is started.
    pub config: Option<ServerConfig>,
    /// The stop, where the command stops a server.
    pub stop: StopServer,
    /// How the server's run ended, while the lock is released.
    pub outcome: Option<Result<(), Failure<E>>>,
}

/// What holds of every session as it goes on.
pub open spec fn session_ok<E>(s: Session<E>) -> bool {
    &&& phase_ok(s.stop.phase)
    &&& s.stage == Stage::CheckingPort ==> s.check_address is Some
    &&& s.command != CommandKind::Start ==> s.check_address is None
    &&& (s.stage == Stage::CheckingPort || s.stage == Stage::TakingLock || s.stage
        == Stage::Announcing || s.stage == Stage::Probing
        || s.stage == Stage::Settling || (s.command == CommandKind::Restart && (s.stage
        == Stage::AnnouncingStop || s.stage == Stage::Stopping || s.stage
        == Stage::ConfirmingStop))) ==> s.config is Some
    &&& s.command == CommandKind::Restart ==> s.target is Some
    &&& s.stage == Stage::CheckingHealth ==> s.target is Some
    &&& s.stage == Stage::Releasing ==> s.outcome is Some
    &&& s.stage == Stage::Stopping ==> s.stop.phase != StopPhase::Finished
    &&& (s.stage == Stage::AnnouncingStop || s.stage == Stage::Probing) ==> s.stop.phase
        == StopPhase::Confirming
    &&& s.command != CommandKind::Start ==> s.stop.address == s.address
}

/// The outcome of the last action as the stop takes it.
pub open spec fn stop_event<E>(e: Event<E>) -> StopEvent<E> {
    match e {
        Event::Probed { running } => StopEvent::Probed { running },
        Event::Completed { result } => StopEvent::Completed { result },
        _ => StopEvent::Slept,
    }
}

/// Whether the event is one that a stop can take.
pub open spec fn is_stop_event<E>(e: Event<E>) -> bool {
    e is Probed || e is Completed || e is Slept
}

/// Whether a session in `s` takes `e`: each stage waits for the outcome of
/// one kind of action.
pub open spec fn session_accepts<E>(s: Session<E>, e: Event<E>) -> bool {
    match s.stage {
        Stage::CheckingPort => e is PortChecked,
        Stage::TakingLock => e is LockTaken,
        Stage::Announcing | Stage::AnnouncingStop | Stage::ConfirmingStop | Stage::Reporting => e is Reported,
        Stage::Serving | Stage::Releasing => e is Completed,
        Stage::Stopping => is_stop_event(e) && accepts(s.stop.phase, stop_event(e)),
        Stage::ReadingStatus => e is StatusRead,
        Stage::CheckingHealth => e is HealthRead,
        Stage::Probing => e is Probed,
        Stage::Settling => e is Slept,
        Stage::Finished => false,
    }
}

/// A stop's action as the session's action on the stop's address.
pub open spec fn lift_stop_action<E>(a: StopAction<E>, address: String) -> Action<E> {
    match a {
        StopAction::Probe => Action::Probe { address },
        StopAction::Kill => Action::Kill { address },
        StopAction::GracefulShutdown => Action::GracefulShutdown { address },
        StopAction::Sleep { millis } => Action::Sleep { millis },
        StopAction::ReleaseLock => Action::ReleaseLock,
        StopAction::Finish { result } => Action::Finish { result },
    }
}

/// One step of a session: from the session and the outcome of the last
/// action, the session after it and the next action.
pub open spec fn session_step<E>(s: Session<E>, e: Event<E>) -> (Session<E>, Action<E>) {
    match (s.stage, e) {
        (Stage::CheckingPort, Event::PortChecked { available: Err(f) }) => (
            Session { stage: Stage::Finished, ..s },
            Action::Finish { result: Err(f) },
        ),
        (Stage::CheckingPort, Event::PortChecked { available: Ok(true) }) => (
            Session { stage: Stage::Finished, ..s },
            Action::Finish {
                result: Err(
                    Failure::Manager(
                        ManagerError::AddressInUse { address: s.check_address.unwrap() },
                    ),
                ),
            },
        ),
        (Stage::CheckingPort, Event::PortChecked { available: Ok(false) }) => (
            Session { stage: Stage::TakingLock, ..s },
            Action::AcquireLock,
        ),
        (Stage::TakingLock, Event::LockTaken { acquired: Err(f) }) => (
            Session { stage: Stage::Finished, ..s },
            Action::Finish { result: Err(f) },
        ),
        (Stage::TakingLock, Event::LockTaken { acquired: Ok(false) }) => (
            Session { stage: Stage::Finished, ..s },
            Action::Finish { result: Err(Failure::Manager(ManagerError::AlreadyRunning)) },
        ),
        (Stage::TakingLock, Event::LockTaken { acquired: Ok(true) }) => {
            if s.command == CommandKind::Restart {
                (
                    Session { stage: Stage::Announcing, ..s },
                    Action::Report { message: Message::StartingServer { address: s.target.unwrap() } },
                )
            } else {
                (
                    Session { stage: Stage::Serving, config: None, ..s },
                    Action::StartServer { config: s.config.unwrap() },
                )
            }
        },
        (Stage::Announcing, Event::Reported) => (
            Session { stage: Stage::Serving, config: None, ..s },
            Action::StartServer { config: s.config.unwrap() },
        ),
        (Stage::Serving, Event::Completed { result }) => (
            Session { stage: Stage::Releasing, outcome: Some(result), ..s },
            Action::ReleaseLock,
        ),
        (Stage::Releasing, Event::Completed { .. }) => (
            Session { stage: Stage::Finished, outcome: None, ..s },
            Action::Finish { result: s.outcome.unwrap() },
        ),
        (Stage::AnnouncingStop, Event::Reported) => (
            Session { stage: Stage::Stopping, ..s },
            Action::Probe { address: s.stop.address },
        ),
        (Stage::Stopping, _) => {
            let (phase, a) = stop_step(s.stop, stop_event(e));
            let stop = StopServer { phase, ..s.stop };
            match a {
                StopAction::Finish { result: Err(f) } => (
                    Session { stage: Stage::Finished, stop, ..s },
                    Action::Finish { result: Err(f) },
                ),
                StopAction::Finish { result: Ok(()) } => (
                    Session { stage: Stage::ConfirmingStop, stop, ..s },
                    Action::Report {
                        message: if s.command == CommandKind::Restart {
                            Message::ServerStopped
                        } else {
                            Message::ServerStoppedSuccessfully
                        },
                    },
                ),
                _ => (Session { stop, ..s }, lift_stop_action(a, s.stop.address)),
            }
        },
        (Stage::ConfirmingStop, Event::Reported) => {
            if s.command == CommandKind::Restart {
                (
                    Session { stage: Stage::Settling, ..s },
                    Action::Sleep { millis: RESTART_SETTLE_MILLIS },
                )
            } else {
                (Session { stage: Stage::Finished, ..s }, Action::Finish { result: Ok(()) })
            }
        },
        (Stage::ReadingStatus, Event::StatusRead { status: Err(f) }) => (
            Session { stage: Stage::Finished, ..s },
            Action::Finish { result: Err(f) },
        ),
        (Stage::ReadingStatus, Event::StatusRead { status: Ok(st) }) => {
            if st.running {
                (
                    Session { stage: Stage::CheckingHealth, target: Some(st.address.text), ..s },
                    Action::QueryHealth { address: st.address.text },
                )
            } else {
                (
                    Session { stage: Stage::Reporting, ..s },
                    Action::Report { message: Message::NotRunning { address: s.address } },
                )
            }
        },
        (Stage::CheckingHealth, Event::HealthRead { healthy }) => (
            Session { stage: Stage::Reporting, ..s },
            Action::Report { message: Message::Running { address: s.target.unwrap(), healthy } },
        ),
        (Stage::Reporting, Event::Reported) => (
            Session { stage: Stage::Finished, ..s },
            Action::Finish { result: Ok(()) },
        ),
        (Stage::Probing, Event::Probed { running: Err(f) }) => (
            Session { stage: Stage::Finished, ..s },
            Action::Finish { result: Err(f) },
        ),
        (Stage::Probing, Event::Probed { running: Ok(true) }) => (
            Session { stage: Stage::AnnouncingStop, ..s },
            Action::Report { message: Message::StoppingServer { address: s.address } },
        ),
        (Stage::Probing, Event::Probed { running: Ok(false) }) => (
            Session { stage: Stage::Settling, ..s },
            Action::Sleep { millis: RESTART_SETTLE_MILLIS },
        ),
        (Stage::Settling, Event::Slept) => (
            Session { stage: Stage::TakingLock, ..s },
            Action::AcquireLock,
        ),
        _ => (s, Action::Sleep { millis: 0 }),
    }
}

/// The session that a command line begins, and its first action.
pub open spec fn is_initial_session<E>(cli: Cli, s: Session<E>, a: Action<E>) -> bool {
    &&& s.outcome is None
    &&& s.stop.phase == StopPhase::Confirming
    &&& match cli.command {
        Commands::Start {
            endpoint,
            ns,
            db,
            user,
            pass,
            bind_address,
            socket_path,
            rate_limit_rps,
            rate_limit_burst,
            auth_disabled,
            server_url,
            auth_server,
            auth_audience,
            cloud_access_token,
            cloud_refresh_token,
        } => {
            &&& s.command == CommandKind::Start
            &&& s.check_address == non_empty_spec(bind_address)
            &&& s.target is None
            &&& s.config matches Some(c) && is_start_config(
                c,
                endpoint,
                ns,
                db,
                user,
                pass,
                bind_address,
                socket_path,
                rate_limit_rps,
                rate_limit_burst,
                auth_disabled,
                server_url,
                auth_server,
                auth_audience,
                cloud_access_token,
                cloud_refresh_token,
            )
            &&& match s.check_address {
                Some(address) => s.stage == Stage::CheckingPort && a == (Action::<E>::CheckPort {
                    address,
                }),
                None => s.stage == Stage::TakingLock && a == Action::<E>::AcquireLock,
            }
        },
        Commands::Stop { bind_address, force } => {
            &&& s.command == CommandKind::Stop
            &&& s.stage == Stage::AnnouncingStop
            &&& s.address == bind_address
            &&& s.stop.address == bind_address
            &&& s.stop.force == force
            &&& s.check_address is None
            &&& s.target is None
            &&& s.config is None
            &&& a == (Action::<E>::Report {
                message: Message::StoppingServer { address: bind_address },
            })
        },
        Commands::Status { bind_address } => {
            &&& s.command == CommandKind::Status
            &&& s.stage == Stage::ReadingStatus
            &&& s.address == bind_address
            &&& s.check_address is None
            &&& s.target is None
            &&& s.config is None
            &&& a == (Action::<E>::GetStatus { address: bind_address })
        },
        Commands::Restart {
            bind_address,
            force,
            endpoint,
            ns,
            db,
            user,
            pass,
            new_bind_address,
            socket_path,
            rate_limit_rps,
            rate_limit_burst,
            auth_disabled,
            server_url,
            auth_server,
            auth_audience,
            cloud_access_token,
            cloud_refresh_token,
        } => {
            &&& s.command == CommandKind::Restart
            &&& s.stage == Stage::Probing
            &&& s.address == bind_address
            &&& s.stop.address == bind_address
            &&& s.stop.force == force
            &&& s.check_address is None
            &&& s.target == Some(restart_address(bind_address, new_bind_address))
            &&& s.config matches Some(c) && is_restart_config(
                c,
                bind_address,
                endpoint,
                ns,
                db,
                user,
                pass,
                new_bind_address,
                socket_path,
                rate_limit_rps,
                rate_limit_burst,
                auth_disabled,
                server_url,
                auth_server,
                auth_audience,
                cloud_access_token,
                cloud_refresh_token,
            )
            &&& a == (Action::<E>::Probe { address: bind_address })
        },
    }
}

/// A copy of an optional text.
fn clone_text(value: &Option<String>) -> (r: Option<String>)
    ensures
        r == *value,
{
    match value {
        Some(s) => Some(s.clone()),
        None => None,
    }
}

/// The text of an option that holds one.
fn text_of(value: &Option<String>) -> (r: String)
    requires
        value is Some,
    ensures
        r == value.unwrap(),
{
    match value {
        Some(s) => s.clone(),
        None => String::new(),
    }
}

/// The outcome of the last action as the stop takes it.
fn to_stop_event<E>(e: Event<E>) -> (r: StopEvent<E>)
    ensures
        r == stop_event(e),
{
    match e {
        Event::Probed { running } => StopEvent::Probed { running },
        Event::Completed { result } => StopEvent::Completed { result },
        _ => StopEvent::Slept,
    }
}

impl<E> Session<E> {
    /// Begins running the command of `cli`.
    pub fn new(cli: Cli) -> (r: (Session<E>, Action<E>))
        ensures
            is_initial_session(cli, r.0, r.1),
            session_ok(r.0),
    {
        match cli.command {
            Commands::Start {
                endpoint,
                ns,
                db,
                user,
                pass,
                bind_address,
                socket_path,
                rate_limit_rps,
                rate_limit_burst,
                auth_disabled,
                server_url,
                auth_server,
                auth_audience,
                cloud_access_token,
                cloud_refresh_token,
            } => {
                let check_address = crate::commands::non_empty(clone_text(&bind_address));
                let config = start_config(
                    endpoint,
                    ns,
                    db,
                    user,
                    pass,
                    bind_address,
                    socket_path,
                    rate_limit_rps,
                    rate_limit_burst,
                    auth_disabled,
                    server_url,
                    auth_server,
                    auth_audience,
                    cloud_access_token,
                    cloud_refresh_token,
                );
                let (stage, action) = match &check_address {
                    Some(address) => (Stage::CheckingPort, Action::CheckPort { address: address.clone() }),
                    None => (Stage::TakingLock, Action::AcquireLock),
                };
                let session = Session {
                    command: CommandKind::Start,
                    stage,
                    address: String::new(),
                    check_address,
                    target: None,
                    config: Some(config),
                    stop: StopServer { address: String::new(), force: false, phase: StopPhase::Confirming },
                    outcome: None,
                };
                (session, action)
            },
            Commands::Stop { bind_address, force } => {
                let session = Session {
                    command: CommandKind::Stop,
                    stage: Stage::AnnouncingStop,
                    address: bind_address.clone(),
                    check_address: None,
                    target: None,
                    config: None,
                    stop: StopServer { address: bind_address.clone(), force, phase: StopPhase::Confirming },
                    outcome: None,
                };
                (session, Action::Report { message: Message::StoppingServer { address: bind_address } })
            },
            Commands::Status { bind_address } => {
                let session = Session {
                    command: CommandKind::Status,
                    stage: Stage::ReadingStatus,
                    address: bind_address.clone(),
                    check_address: None,
                    target: None,
                    config: None,
                    stop: StopServer { address: bind_address.clone(), force: false, phase: StopPhase::Confirming },
                    outcome: None,
                };
                (session, Action::GetStatus { address: bind_address })
            },
            Commands::Restart {
                bind_address,
                force,
                endpoint,
                ns,
                db,
                user,
                pass,
                new_bind_address,
                socket_path,
                rate_limit_rps,
                rate_limit_burst,
                auth_disabled,
                server_url,
                auth_server,
                auth_audience,
                cloud_access_token,
                cloud_refresh_token,
            } => {
                let target = choose_restart_address(&bind_address, &new_bind_address);
                let config = restart_config(
                    &bind_address,
                    endpoint,
                    ns,
                    db,
                    user,
                    pass,
                    &new_bind_address,
                    socket_path,
                    rate_limit_rps,
                    rate_limit_burst,
                    auth_disabled,
                    server_url,
                    auth_server,
                    auth_audience,
                    cloud_access_token,
                    cloud_refresh_token,
                );
                let session = Session {
                    command: CommandKind::Restart,
                    stage: Stage::Probing,
                    address: bind_address.clone(),
                    check_address: None,
                    target: Some(target),
                    config: Some(config),
                    stop: StopServer { address: bind_address.clone(), force, phase: StopPhase::Confirming },
                    outcome: None,
                };
                (session, Action::Probe { address: bind_address })
            },
        }
    }

    /// Whether the command is over.
    pub fn is_finished(&self) -> (b: bool)
        ensures
            b == (self.stage == Stage::Finished),
    {
        self.stage == Stage::Finished
    }

    /// Whether this session takes `event` next.
    pub fn accepts(&self, event: &Event<E>) -> (b: bool)
        ensures
            b == session_accepts(*self, *event),
    {
        match self.stage {
            Stage::CheckingPort => matches!(event, Event::PortChecked { .. }),
            Stage::TakingLock => matches!(event, Event::LockTaken { .. }),
            Stage::Announcing | Stage::AnnouncingStop | Stage::ConfirmingStop | Stage::Reporting => {
                matches!(event, Event::Reported)
            },
            Stage::Serving | Stage::Releasing => matches!(event, Event::Completed { .. }),
            Stage::Stopping => match event {
                Event::Probed { .. } => match self.stop.phase {
                    StopPhase::Confirming | StopPhase::Polling { .. } | StopPhase::Rechecking => true,
                    _ => false,
                },
                Event::Completed { .. } => match self.stop.phase {
                    StopPhase::ShuttingDown | StopPhase::ForceKilling | StopPhase::Releasing => true,
                    _ => false,
                },
                Event::Slept => match self.stop.phase {
                    StopPhase::Waiting { .. } => true,
                    _ => false,
                },
                _ => false,
            },
            Stage::ReadingStatus => matches!(event, Event::StatusRead { .. }),
            Stage::CheckingHealth => matches!(event, Event::HealthRead { .. }),
            Stage::Probing => matches!(event, Event::Probed { .. }),
            Stage::Settling => matches!(event, Event::Slept),
            Stage::Finished => false,
        }
    }

    /// Takes the outcome of the last action and gives the next action.
    pub fn step(&mut self, event: Event<E>) -> (action: Action<E>)
        requires
            session_ok(*old(self)),
            session_accepts(*old(self), event),
        ensures
            (*final(self), action) == session_step(*old(self), event),
            session_ok(*final(self)),
    {
        match self.stage {
            Stage::CheckingPort => match event {
                Event::PortChecked { available: Err(f) } => {
                    self.stage = Stage::Finished;
                    Action::Finish { result: Err(f) }
                },
                Event::PortChecked { available: Ok(true) } => {
                    self.stage = Stage::Finished;
                    let address = text_of(&self.check_address);
                    Action::Finish {
                        result: Err(Failure::Manager(ManagerError::AddressInUse { address })),
                    }
                },
                _ => {
                    self.stage = Stage::TakingLock;
                    Action::AcquireLock
                },
            },
            Stage::TakingLock => match event {
                Event::LockTaken { acquired: Err(f) } => {
                    self.stage = Stage::Finished;
                    Action::Finish { result: Err(f) }
                },
                Event::LockTaken { acquired: Ok(false) } => {
                    self.stage = Stage::Finished;
                    Action::Finish { result: Err(Failure::Manager(ManagerError::AlreadyRunning)) }
                },
                _ => {
                    if self.command == CommandKind::Restart {
                        self.stage = Stage::Announcing;
                        let address = text_of(&self.target);
                        Action::Report { message: Message::StartingServer { address } }
                    } else {
                        self.stage = Stage::Serving;
                        self.start_server()
                    }
                },
            },
            Stage::Announcing => {
                self.stage = Stage::Serving;
                self.start_server()
            },
            Stage::Serving => match event {
                Event::Completed { result } => {
                    self.stage = Stage::Releasing;
                    self.outcome = Some(result);
                    Action::ReleaseLock
                },
                _ => Action::ReleaseLock,
            },
            Stage::Releasing => {
                self.stage = Stage::Finished;
                match self.outcome.take() {
                    Some(result) => Action::Finish { result },
                    None => Action::Finish { result: Ok(()) },
                }
            },
            Stage::AnnouncingStop => {
                self.stage = Stage::Stopping;
                Action::Probe { address: self.stop.address.clone() }
            },
            Stage::Stopping => {
                let a = self.stop.step(to_stop_event(event));
                match a {
                    StopAction::Finish { result: Err(f) } => {
                        self.stage = Stage::Finished;
                        Action::Finish { result: Err(f) }
                    },
                    StopAction::Finish { result: Ok(()) } => {
                        self.stage = Stage::ConfirmingStop;
                        if self.command == CommandKind::Restart {
                            Action::Report { message: Message::ServerStopped }
                        } else {
                            Action::Report { message: Message::ServerStoppedSuccessfully }
                        }
                    },
                    StopAction::Probe => Action::Probe { address: self.stop.address.clone() },
                    StopAction::Kill => Action::Kill { address: self.stop.address.clone() },
                    StopAction::GracefulShutdown => {
                        Action::GracefulShutdown { address: self.stop.address.clone() }
                    },
                    StopAction::Sleep { millis } => Action::Sleep { millis },
                    StopAction::ReleaseLock => Action::ReleaseLock,
                }
            },
            Stage::ConfirmingStop => {
                if self.command == CommandKind::Restart {
                    self.stage = Stage::Settling;
                    Action::Sleep { millis: RESTART_SETTLE_MILLIS }
                } else {
                    self.stage = Stage::Finished;
                    Action::Finish { result: Ok(()) }
                }
            },
            Stage::ReadingStatus => match event {
                Event::StatusRead { status: Err(f) } => {
                    self.stage = Stage::Finished;
                    Action::Finish { result: Err(f) }
                },
                Event::StatusRead { status: Ok(st) } => {
                    if st.running {
                        self.stage = Stage::CheckingHealth;
                        self.target = Some(st.address.text.clone());
                        Action::QueryHealth { address: st.address.text }
                    } else {
                        self.stage = Stage::Reporting;
                        Action::Report {
                            message: Message::NotRunning { address: self.address.clone() },
                        }
                    }
                },
                _ => Action::Sleep { millis: 0 },
            },
            Stage::CheckingHealth => match event {
                Event::HealthRead { healthy } => {
                    self.stage = Stage::Reporting;
                    let address = text_of(&self.target);
                    Action::Report { message: Message::Running { address, healthy } }
                },
                _ => Action::Sleep { millis: 0 },
            },
            Stage::Reporting => {
                self.stage = Stage::Finished;
                Action::Finish { result: Ok(()) }
            },
            Stage::Probing => match event {
                Event::Probed { running: Err(f) } => {
                    self.stage = Stage::Finished;
                    Action::Finish { result: Err(f) }
                },
                Event::Probed { running: Ok(true) } => {
                    self.stage = Stage::AnnouncingStop;
                    Action::Report { message: Message::StoppingServer { address: self.address.clone() } }
                },
                _ => {
                    self.stage = Stage::Settling;
                    Action::Sleep { millis: RESTART_SETTLE_MILLIS }
                },
            },
            Stage::Settling => {
                self.stage = Stage::TakingLock;
                Action::AcquireLock
            },
            Stage::Finished => Action::Sleep { millis: 0 },
        }
    }

    /// Hands the configuration over to start the server.
    fn start_server(&mut self) -> (action: Action<E>)
        requires
            old(self).config is Some,
        ensures
            *final(self) == (Session { config: None, ..*old(self) }),
            action == (Action::<E>::StartServer { config: old(self).config.unwrap() }),
    {
        match self.config.take() {
            Some(config) => Action::StartServer { config },
            None => Action::AcquireLock,
        }
    }
}

/// How many more steps a session can take at most.
pub open spec fn session_rank<E>(s: Session<E>) -> nat {
    let after_stop: nat = if s.command == CommandKind::Restart {
        6
    } else {
        1
    };
    match s.stage {
        Stage::Finished => 0,
        Stage::Releasing => 1,
        Stage::Serving => 2,
        Stage::Announcing => 3,
        Stage::TakingLock => 4,
        Stage::CheckingPort => 5,
        Stage::Settling => 5,
        Stage::ConfirmingStop => after_stop,
        Stage::Stopping => after_stop + steps_left(s.stop.phase),
        Stage::AnnouncingStop => after_stop + 27,
        Stage::Probing => after_stop + 28,
        Stage::ReadingStatus => 3,
        Stage::CheckingHealth => 2,
        Stage::Reporting => 1,
    }
}

/// The actions that a session gives for a run of outcomes, up to the first
/// outcome that it does not take.
pub open spec fn session_run<E>(s: Session<E>, events: Seq<Event<E>>) -> Seq<Action<E>>
    decreases events.len(),
{
    if events.len() == 0 || !session_accepts(s, events[0]) {
        seq![]
    } else {
        let (next, action) = session_step(s, events[0]);
        seq![action] + session_run(next, events.drop_first())
    }
}

/// Every step of a session keeps what holds of sessions and brings the
/// command closer to its end.
pub proof fn law_session_step_progresses<E>(s: Session<E>, e: Event<E>)
    requires
        session_ok(s),
        session_accepts(s, e),
    ensures
        session_ok(session_step(s, e).0),
        session_rank(session_step(s, e).0) < session_rank(s),
{
    if s.stage == Stage::Stopping {
        law_stop_step_progresses(s.stop, stop_event(e));
    }
}

/// Every command ends: whatever the outcomes, a session takes at most
/// `session_rank` steps (34 from any command line).
pub proof fn law_session_run_is_bounded<E>(s: Session<E>, events: Seq<Event<E>>)
    requires
        session_ok(s),
    ensures
        session_run(s, events).len() <= session_rank(s),
    decreases events.len(),
{
    if events.len() > 0 && session_accepts(s, events[0]) {
        let (next, action) = session_step(s, events[0]);
        law_session_step_progresses(s, events[0]);
        law_session_run_is_bounded(next, events.drop_first());
        assert(session_run(s, events).drop_first() =~= session_run(next, events.drop_first()));
    }
}

/// A command line's session ends within 34 steps.
pub proof fn law_command_ends<E>(cli: Cli, s: Session<E>, first: Action<E>, events: Seq<Event<E>>)
    requires
        is_initial_session(cli, s, first),
        session_ok(s),
    ensures
        session_run(s, events).len() <= 34,
{
    law_session_run_is_bounded(s, events);
}

/// Where the port check of `start` answers that the address counts as
/// available, `start` ends with `AddressInUse` for that address before it
/// takes the lock.
pub proof fn law_start_refuses_on_port_check<E>(s: Session<E>)
    requires
        s.stage == Stage::CheckingPort,
    ensures
        session_step(s, Event::<E>::PortChecked { available: Ok(true) }).1 == (Action::<E>::Finish {
            result: Err(Failure::Manager(ManagerError::AddressInUse { address: s.check_address.unwrap() })),
        }),
{
}

/// Where the lock is held by another instance, the command ends with
/// `AlreadyRunning` and no server is started.
pub proof fn law_held_lock_refuses_start<E>(s: Session<E>)
    requires
        s.stage == Stage::TakingLock,
    ensures
        session_step(s, Event::<E>::LockTaken { acquired: Ok(false) }) == (
            Session { stage: Stage::Finished, ..s },
            Action::<E>::Finish { result: Err(Failure::Manager(ManagerError::AlreadyRunning)) },
        ),
{
}

/// The server is started only while the lock is held: it is started right
/// after the lock was taken, or after the start was announced, which itself
/// follows only the taking of the lock.
pub proof fn law_server_runs_only_under_lock<E>(s: Session<E>, e: Event<E>)
    requires
        session_ok(s),
        session_accepts(s, e),
    ensures
        (session_step(s, e).1 is StartServer) ==> ((s.stage == Stage::TakingLock && e == (
        Event::<E>::LockTaken { acquired: Ok(true) })) || s.stage == Stage::Announcing),
        session_step(s, e).0.stage == Stage::Announcing ==> (s.stage == Stage::TakingLock && e
            == (Event::<E>::LockTaken { acquired: Ok(true) })),
{
    if s.stage == Stage::TakingLock {
        match e {
            Event::LockTaken { acquired: Ok(b) } => {},
            _ => {},
        }
    }
}

/// Once the server exits, the lock is released, and the command ends with
/// the server's own result, however the release went.
pub proof fn law_lock_released_after_server<E>(
    s: Session<E>,
    server: Result<(), Failure<E>>,
    release: Result<(), Failure<E>>,
)
    requires
        s.stage == Stage::Serving,
    ensures
        session_step(s, Event::Completed { result: server }).1 is ReleaseLock,
        session_step(session_step(s, Event::Completed { result: server }).0, Event::Completed {
            result: release,
        }).1 == (Action::Finish { result: server }),
{
}

/// The health of a server is asked for only where its status says it runs,
/// and at the address that the status gives.
pub proof fn law_health_only_when_running<E>(s: Session<E>, e: Event<E>)
    requires
        session_accepts(s, e),
    ensures
        (session_step(s, e).1 is QueryHealth) ==> (s.stage == Stage::ReadingStatus && (e matches Event::StatusRead { status: Ok(st) } && st.running && session_step(s, e).1 == (
        Action::<E>::QueryHealth { address: st.address.text }))),
{
}

/// A restart stops a server only where the probe found one, never checks
/// the port, and always waits before it takes the lock.
pub proof fn law_restart_order<E>(s: Session<E>, e: Event<E>)
    requires
        s.command == CommandKind::Restart,
        session_ok(s),
        session_accepts(s, e),
    ensures
        session_step(s, e).0.stage == Stage::AnnouncingStop ==> (s.stage == Stage::Probing && e
            == (Event::<E>::Probed { running: Ok(true) })),
        !(session_step(s, e).1 is CheckPort),
        (session_step(s, e).1 is AcquireLock) ==> (s.stage == Stage::Settling && e is Slept),
        session_step(s, e).0.stage == Stage::Settling ==> session_step(s, e).1 == (
        Action::<E>::Sleep { millis: RESTART_SETTLE_MILLIS }),
{
    if s.stage == Stage::Probing {
        match e {
            Event::Probed { running: Ok(b) } => {},
            _ => {},
        }
    }
}

/// An error that a step reports ends the command with that error, except
/// where the server runs or the lock is released after it: the server's error
/// waits for the release, and the release's own error gives way to the
/// server's result.
pub proof fn law_session_passes_errors_on<E>(s: Session<E>, e: Event<E>, f: Failure<E>)
    requires
        session_ok(s),
        session_accepts(s, e),
        s.stage != Stage::Serving,
        s.stage != Stage::Releasing,
        e == (Event::<E>::PortChecked { available: Err(f) }) || e == (Event::<E>::LockTaken {
            acquired: Err(f),
        }) || e == (Event::<E>::Probed { running: Err(f) }) || e == (Event::<E>::StatusRead {
            status: Err(f),
        }) || e == (Event::<E>::Completed { result: Err(f) }),
    ensures
        session_step(s, e).1 == (Action::<E>::Finish { result: Err(f) }),
        session_step(s, e).0.stage == Stage::Finished,
{
}

/// The path of `start`: a port check that finds the address not available
/// leads to taking the lock; a lock taken by `start` starts the server with
/// the session's configuration, and one taken by `restart` first announces
/// the start on the restart address, after which the server is started with
/// the session's configuration.
pub proof fn law_launch_path<E>(s: Session<E>)
    requires
        session_ok(s),
    ensures
        s.stage == Stage::CheckingPort ==> session_step(s, Event::<E>::PortChecked { available: Ok(false) }).0.stage == Stage::TakingLock
            && session_step(s, Event::<E>::PortChecked { available: Ok(false) }).1 == Action::<E>::AcquireLock,
        (s.stage == Stage::TakingLock && s.command != CommandKind::Restart) ==> (session_step(s, Event::<E>::LockTaken { acquired: Ok(true) }).0.stage == Stage::Serving
            && session_step(s, Event::<E>::LockTaken { acquired: Ok(true) }).1 == (Action::<E>::StartServer { config: s.config.unwrap() })),
        (s.stage == Stage::TakingLock && s.command == CommandKind::Restart) ==> (session_step(s, Event::<E>::LockTaken { acquired: Ok(true) }).0.stage == Stage::Announcing
            && session_step(s, Event::<E>::LockTaken { acquired: Ok(true) }).1 == (Action::<E>::Report { message: Message::StartingServer { address: s.target.unwrap() } })),
        s.stage == Stage::Announcing ==> (session_step(s, Event::<E>::Reported).0.stage == Stage::Serving
            && session_step(s, Event::<E>::Reported).1 == (Action::<E>::StartServer { config: s.config.unwrap() })),
{
}

/// The server is started with the configuration the session was made with,
/// unchanged: a session never alters its configuration, it only hands it
/// over, once, to the start of the server.
pub proof fn law_server_gets_session_config<E>(s: Session<E>, e: Event<E>)
    requires
        session_ok(s),
        session_accepts(s, e),
    ensures
        (session_step(s, e).1 matches Action::StartServer { config } ==> s.config == Some(config)),
        session_step(s, e).0.config == s.config || ((session_step(s, e).1 is StartServer)
            && session_step(s, e).0.config is None),
{
}

/// A stop in a session works on the address of the server being stopped,
/// which for `stop` and `restart` is the bind address given: announcing the
/// stop leads to a probe of that address.
pub proof fn law_stop_targets_bind_address<E>(s: Session<E>)
    requires
        session_ok(s),
        s.stage == Stage::AnnouncingStop,
    ensures
        s.command != CommandKind::Start ==> s.stop.address == s.address,
        session_step(s, Event::<E>::Reported).0.stage == Stage::Stopping,
        session_step(s, Event::<E>::Reported).1 == (Action::<E>::Probe { address: s.stop.address }),
{
}

/// While a session runs a stop, it asks for what the stop asks for, on the
/// stopped server's address: a probe, a kill or a shutdown of that address, a
/// wait of the same length, or the lock release; a stop that fails ends the
/// command with its error, and one that succeeds is announced.
pub proof fn law_session_follows_stop<E>(s: Session<E>, e: Event<E>)
    requires
        session_ok(s),
        session_accepts(s, e),
        s.stage == Stage::Stopping,
    ensures
        session_step(s, e).0.stop.phase == stop_step(s.stop, stop_event(e)).0,
        session_step(s, e).0.stop.address == s.stop.address,
        (stop_step(s.stop, stop_event(e)).1 is Probe) ==> (session_step(s, e).0.stage == Stage::Stopping
            && session_step(s, e).1 == (Action::<E>::Probe { address: s.stop.address })),
        (stop_step(s.stop, stop_event(e)).1 is Kill) ==> (session_step(s, e).0.stage == Stage::Stopping
            && session_step(s, e).1 == (Action::<E>::Kill { address: s.stop.address })),
        (stop_step(s.stop, stop_event(e)).1 is GracefulShutdown) ==> (session_step(s, e).0.stage == Stage::Stopping
            && session_step(s, e).1 == (Action::<E>::GracefulShutdown { address: s.stop.address })),
        (stop_step(s.stop, stop_event(e)).1 matches StopAction::Sleep { millis } ==> (session_step(s, e).0.stage == Stage::Stopping
            && session_step(s, e).1 == (Action::<E>::Sleep { millis }))),
        (stop_step(s.stop, stop_event(e)).1 is ReleaseLock) ==> (session_step(s, e).0.stage == Stage::Stopping
            && session_step(s, e).1 == Action::<E>::ReleaseLock),
        (stop_step(s.stop, stop_event(e)).1 matches StopAction::Finish { result: Err(f) } ==> (session_step(s, e).0.stage == Stage::Finished
            && session_step(s, e).1 == (Action::<E>::Finish { result: Err(f) }))),
        (stop_step(s.stop, stop_event(e)).1 == (StopAction::<E>::Finish { result: Ok(()) }) && s.command == CommandKind::Restart) ==> (session_step(s, e).0.stage == Stage::ConfirmingStop
            && session_step(s, e).1 == (Action::<E>::Report { message: Message::ServerStopped })),
        (stop_step(s.stop, stop_event(e)).1 == (StopAction::<E>::Finish { result: Ok(()) }) && s.command != CommandKind::Restart) ==> (session_step(s, e).0.stage == Stage::ConfirmingStop
            && session_step(s, e).1 == (Action::<E>::Report { message: Message::ServerStoppedSuccessfully })),
{
    match stop_step(s.stop, stop_event(e)).1 {
        StopAction::Finish { result: Ok(u) } => {
            assert(u == ());
        },
        _ => {},
    }
}

/// After a stop was announced as done, `stop` ends well and `restart` waits
/// for the port to be given up.
pub proof fn law_after_stop<E>(s: Session<E>)
    requires
        s.stage == Stage::ConfirmingStop,
    ensures
        s.command == CommandKind::Restart ==> (session_step(s, Event::<E>::Reported).0.stage == Stage::Settling
            && session_step(s, Event::<E>::Reported).1 == (Action::<E>::Sleep { millis: RESTART_SETTLE_MILLIS })),
        s.command != CommandKind::Restart ==> (session_step(s, Event::<E>::Reported).0.stage == Stage::Finished
            && session_step(s, Event::<E>::Reported).1 == (Action::<E>::Finish { result: Ok(()) })),
{
}

/// The path of `status`: a running server's health is asked for at the
/// address the status gives and reported with it; an absent server is
/// reported at the bind address given; once its line is printed, `status`
/// ends well, whatever it reported.
pub proof fn law_status_path<E>(s: Session<E>, st: ServerStatus, healthy: bool)
    ensures
        (s.stage == Stage::ReadingStatus && st.running) ==> (session_step(s, Event::<E>::StatusRead { status: Ok(st) }).0.stage == Stage::CheckingHealth
            && session_step(s, Event::<E>::StatusRead { status: Ok(st) }).0.target == Some(st.address.text)
            && session_step(s, Event::<E>::StatusRead { status: Ok(st) }).1 == (Action::<E>::QueryHealth { address: st.address.text })),
        (s.stage == Stage::ReadingStatus && !st.running) ==> (session_step(s, Event::<E>::StatusRead { status: Ok(st) }).0.stage == Stage::Reporting
            && session_step(s, Event::<E>::StatusRead { status: Ok(st) }).1 == (Action::<E>::Report { message: Message::NotRunning { address: s.address } })),
        s.stage == Stage::CheckingHealth ==> (session_step(s, Event::<E>::HealthRead { healthy }).0.stage == Stage::Reporting
            && session_step(s, Event::<E>::HealthRead { healthy }).1 == (Action::<E>::Report { message: Message::Running { address: s.target.unwrap(), healthy } })),
        s.stage == Stage::Reporting ==> (session_step(s, Event::<E>::Reported).0.stage == Stage::Finished
            && session_step(s, Event::<E>::Reported).1 == (Action::<E>::Finish { result: Ok(()) })),
{
}

/// The path of `restart` before its start: a server that answers on the bind
/// address is announced as being stopped at that address; where none
/// answers, the restart only waits; after the wait it takes the lock.
pub proof fn law_restart_path<E>(s: Session<E>)
    ensures
        s.stage == Stage::Probing ==> (session_step(s, Event::<E>::Probed { running: Ok(true) }).0.stage == Stage::AnnouncingStop
            && session_step(s, Event::<E>::Probed { running: Ok(true) }).1 == (Action::<E>::Report { message: Message::StoppingServer { address: s.address } })),
        s.stage == Stage::Probing ==> (session_step(s, Event::<E>::Probed { running: Ok(false) }).0.stage == Stage::Settling
            && session_step(s, Event::<E>::Probed { running: Ok(false) }).1 == (Action::<E>::Sleep { millis: RESTART_SETTLE_MILLIS })),
        s.stage == Stage::Settling ==> (session_step(s, Event::<E>::Slept).0.stage == Stage::TakingLock
            && session_step(s, Event::<E>::Slept).1 == Action::<E>::AcquireLock),
{
}

} // verus!
