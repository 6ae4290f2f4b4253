use surrealmcp::manager::{Failure, ManagerError, ServerManager};
use surrealmcp::stop::{StopAction, StopEvent, StopPhase, StopServer, MAX_WAIT_ROUNDS, WAIT_MILLIS};

type Action = StopAction<String>;
type Event = StopEvent<String>;

fn probed(running: bool) -> Event {
    StopEvent::Probed { running: Ok(running) }
}

fn done() -> Event {
    StopEvent::Completed { result: Ok(()) }
}

fn start(force: bool) -> StopServer {
    let (m, first): (StopServer, Action) = ServerManager::stop_server("127.0.0.1:8090", force);
    assert!(matches!(first, StopAction::Probe));
    assert_eq!(m.phase, StopPhase::Confirming);
    m
}

fn step(m: &mut StopServer, e: Event) -> Action {
    assert!(m.accepts(&e));
    m.step(e)
}

#[test]
fn stop_without_server_fails() {
    let mut m = start(false);
    match step(&mut m, probed(false)) {
        StopAction::Finish { result: Err(Failure::Manager(ManagerError::NoServerRunning { address })) } => {
            assert_eq!(address, "127.0.0.1:8090")
        }
        _ => panic!("expected NoServerRunning"),
    }
    assert!(m.is_finished());
}

#[test]
fn graceful_stop_that_goes_away() {
    let mut m = start(false);
    assert!(matches!(step(&mut m, probed(true)), StopAction::GracefulShutdown));
    assert!(matches!(step(&mut m, done()), StopAction::Probe));
    // The server is gone at the first poll: one more probe, then release.
    assert!(matches!(step(&mut m, probed(false)), StopAction::Probe));
    assert!(matches!(step(&mut m, probed(false)), StopAction::ReleaseLock));
    assert!(matches!(step(&mut m, done()), StopAction::Finish { result: Ok(()) }));
    assert!(m.is_finished());
}

#[test]
fn forced_stop_kills_first() {
    let mut m = start(true);
    assert!(matches!(step(&mut m, probed(true)), StopAction::Kill));
    assert!(matches!(step(&mut m, done()), StopAction::Probe));
    assert!(matches!(step(&mut m, probed(false)), StopAction::Probe));
    assert!(matches!(step(&mut m, probed(false)), StopAction::ReleaseLock));
    assert!(matches!(step(&mut m, done()), StopAction::Finish { result: Ok(()) }));
}

#[test]
fn stubborn_server_waits_ten_times_then_killed() {
    let mut m = start(false);
    assert!(matches!(step(&mut m, probed(true)), StopAction::GracefulShutdown));
    assert!(matches!(step(&mut m, done()), StopAction::Probe));
    let mut sleeps = 0;
    loop {
        match step(&mut m, probed(true)) {
            StopAction::Sleep { millis } => {
                assert_eq!(millis, WAIT_MILLIS);
                sleeps += 1;
                assert!(matches!(step(&mut m, StopEvent::Slept), StopAction::Probe));
            }
            StopAction::Probe => break,
            _ => panic!("unexpected action"),
        }
    }
    assert_eq!(sleeps, MAX_WAIT_ROUNDS);
    assert!(matches!(step(&mut m, probed(true)), StopAction::Kill));
    assert!(matches!(step(&mut m, done()), StopAction::ReleaseLock));
    assert!(matches!(step(&mut m, done()), StopAction::Finish { result: Ok(()) }));
}

#[test]
fn errors_end_the_stop() {
    let mut m = start(true);
    assert!(matches!(step(&mut m, probed(true)), StopAction::Kill));
    let e: Event = StopEvent::Completed { result: Err(Failure::Outside("lsof failed".to_string())) };
    match step(&mut m, e) {
        StopAction::Finish { result: Err(Failure::Outside(msg)) } => assert_eq!(msg, "lsof failed"),
        _ => panic!("expected the error"),
    }
    assert!(m.is_finished());
    assert!(!m.accepts(&probed(true)));
}

#[test]
fn phases_take_only_their_outcomes() {
    let m = start(false);
    assert!(m.accepts(&probed(true)));
    assert!(!m.accepts(&done()));
    assert!(!m.accepts(&StopEvent::<String>::Slept));
}
