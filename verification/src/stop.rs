//! Stopping a running server, as a machine that decides each next step from
//! the outcome of the last one. The caller performs each action (probing the
//! address, killing the process on the port, sleeping, removing the lock file)
//! and hands the outcome back.
use vstd::prelude::*;
use crate::manager::{Failure, ManagerError, ServerManager};

verus! {

/// How many times the stop waits for the server to go away before it kills
/// what holds the port.
pub const MAX_WAIT_ROUNDS: u32 = 10;

/// How long each wait lasts, in milliseconds.
pub const WAIT_MILLIS: u64 = 200;

/// Where a stop stands.
#[derive(PartialEq, Eq, Structural, Clone, Copy, Debug)]
pub enum StopPhase {
    /// Waiting for the first probe: is a server there at all?
    Confirming,
    /// Waiting for the shutdown (a kill when forced, else a graceful one).
    ShuttingDown,
    /// Waiting for a probe while the server is given time to go away;
    /// `rounds` waits have been made.
    Polling { rounds: u32 },
    /// Waiting for a sleep to end; `rounds` waits had been made before it.
    Waiting { rounds: u32 },
    /// Waiting for the last probe after the waits.
    Rechecking,
    /// Waiting for the kill of a server that did not go away.
    ForceKilling,
    /// Waiting for the lock file to be removed.
    Releasing,
    /// The stop is over.
    Finished,
}

/// What the caller is to do next.
pub enum StopAction<E> {
    /// Probe whether a server answers on the address.
    Probe,
    /// Kill the processes that hold the address's port.
    Kill,
    /// Ask the server to shut down.
    GracefulShutdown,
    /// Sleep for this many milliseconds.
    Sleep { millis: u64 },
    /// Release the single-instance lock.
    ReleaseLock,
    /// The stop is over, with this result.
    Finish { result: Result<(), Failure<E>> },
}

/// The outcome of the last action.
pub enum StopEvent<E> {
    /// A probe's answer: whether a server runs there.
    Probed { running: Result<bool, Failure<E>> },
    /// A kill, a graceful shutdown or a lock release ended so.
    Completed { result: Result<(), Failure<E>> },
    /// A sleep ended.
    Slept,
}

/// A stop in progress.
pub struct StopServer {
    pub address: String,
    pub force: bool,
    pub phase: StopPhase,
}

/// The action that shuts a confirmed server down.
pub open spec fn shutdown_action<E>(force: bool) -> StopAction<E> {
    if force {
        StopAction::Kill
    } else {
        StopAction::GracefulShutdown
    }
}

/// Whether a stop in `phase` takes `event`: each phase waits for the outcome
/// of one kind of action.
pub open spec fn accepts<E>(phase: StopPhase, event: StopEvent<E>) -> bool {
    match phase {
        StopPhase::Confirming | StopPhase::Polling { .. } | StopPhase::Rechecking => event is Probed,
        StopPhase::ShuttingDown | StopPhase::ForceKilling | StopPhase::Releasing => event is Completed,
        StopPhase::Waiting { .. } => event is Slept,
        StopPhase::Finished => false,
    }
}

/// One step of a stop: from the phase and the outcome of the last action,
/// the next phase and the next action. An error that any step reports ends
/// the stop with that error.
pub open spec fn stop_step<E>(m: StopServer, event: StopEvent<E>) -> (StopPhase, StopAction<E>) {
    match (m.phase, event) {
        (_, StopEvent::Probed { running: Err(e) }) => (
            StopPhase::Finished,
            StopAction::Finish { result: Err(e) },
        ),
        (_, StopEvent::Completed { result: Err(e) }) => (
            StopPhase::Finished,
            StopAction::Finish { result: Err(e) },
        ),
        (StopPhase::Confirming, StopEvent::Probed { running: Ok(false) }) => (
            StopPhase::Finished,
            StopAction::Finish {
                result: Err(
                    Failure::Manager(ManagerError::NoServerRunning { address: m.address }),
                ),
            },
        ),
        (StopPhase::Confirming, StopEvent::Probed { running: Ok(true) }) => (
            StopPhase::ShuttingDown,
            shutdown_action(m.force),
        ),
        (StopPhase::ShuttingDown, StopEvent::Completed { result: Ok(()) }) => (
            StopPhase::Polling { rounds: 0 },
            StopAction::Probe,
        ),
        (StopPhase::Polling { rounds }, StopEvent::Probed { running: Ok(running) }) => {
            if running && rounds < MAX_WAIT_ROUNDS {
                (StopPhase::Waiting { rounds }, StopAction::Sleep { millis: WAIT_MILLIS })
            } else {
                (StopPhase::Rechecking, StopAction::Probe)
            }
        },
        (StopPhase::Waiting { rounds }, StopEvent::Slept) => (
            StopPhase::Polling { rounds: (rounds + 1) as u32 },
            StopAction::Probe,
        ),
        (StopPhase::Rechecking, StopEvent::Probed { running: Ok(true) }) => (
            StopPhase::ForceKilling,
            StopAction::Kill,
        ),
        (StopPhase::Rechecking, StopEvent::Probed { running: Ok(false) }) => (
            StopPhase::Releasing,
            StopAction::ReleaseLock,
        ),
        (StopPhase::ForceKilling, StopEvent::Completed { result: Ok(()) }) => (
            StopPhase::Releasing,
            StopAction::ReleaseLock,
        ),
        (StopPhase::Releasing, StopEvent::Completed { result: Ok(()) }) => (
            StopPhase::Finished,
            StopAction::Finish { result: Ok(()) },
        ),
        _ => (m.phase, StopAction::Probe),
    }
}

/// What holds of every phase a stop can reach: the rounds stay within bounds.
pub open spec fn phase_ok(phase: StopPhase) -> bool {
    match phase {
        StopPhase::Polling { rounds } => rounds <= MAX_WAIT_ROUNDS,
        StopPhase::Waiting { rounds } => rounds < MAX_WAIT_ROUNDS,
        _ => true,
    }
}

impl StopServer {
    /// Whether this stop takes `event` next.
    pub fn accepts<E>(&self, event: &StopEvent<E>) -> (b: bool)
        ensures
            b == accepts(self.phase, *event),
    {
        match self.phase {
            StopPhase::Confirming | StopPhase::Polling { .. } | StopPhase::Rechecking => {
                match event {
                    StopEvent::Probed { .. } => true,
                    _ => false,
                }
            },
            StopPhase::ShuttingDown | StopPhase::ForceKilling | StopPhase::Releasing => {
                match event {
                    StopEvent::Completed { .. } => true,
                    _ => false,
                }
            },
            StopPhase::Waiting { .. } => {
                match event {
                    StopEvent::Slept => true,
                    _ => false,
                }
            },
            StopPhase::Finished => false,
        }
    }

    /// Whether the stop is over.
    pub fn is_finished(&self) -> (b: bool)
        ensures
            b == (self.phase == StopPhase::Finished),
    {
        self.phase == StopPhase::Finished
    }

    /// Takes the outcome of the last action and gives the next action.
    pub fn step<E>(&mut self, event: StopEvent<E>) -> (action: StopAction<E>)
        requires
            accepts(old(self).phase, event),
            phase_ok(old(self).phase),
        ensures
            final(self).address == old(self).address,
            final(self).force == old(self).force,
            (final(self).phase, action) == stop_step(*old(self), event),
            phase_ok(final(self).phase),
            final(self).phase == StopPhase::Finished <==> action is Finish,
    {
        let phase = self.phase;
        match event {
            StopEvent::Probed { running: Err(e) } => {
                self.phase = StopPhase::Finished;
                StopAction::Finish { result: Err(e) }
            },
            StopEvent::Completed { result: Err(e) } => {
                self.phase = StopPhase::Finished;
                StopAction::Finish { result: Err(e) }
            },
            StopEvent::Probed { running: Ok(running) } => match phase {
                StopPhase::Confirming => {
                    if running {
                        self.phase = StopPhase::ShuttingDown;
                        if self.force {
                            StopAction::Kill
                        } else {
                            StopAction::GracefulShutdown
                        }
                    } else {
                        self.phase = StopPhase::Finished;
                        StopAction::Finish {
                            result: Err(
                                Failure::Manager(
                                    ManagerError::NoServerRunning { address: self.address.clone() },
                                ),
                            ),
                        }
                    }
                },
                StopPhase::Polling { rounds } => {
                    if running && rounds < MAX_WAIT_ROUNDS {
                        self.phase = StopPhase::Waiting { rounds };
                        StopAction::Sleep { millis: WAIT_MILLIS }
                    } else {
                        self.phase = StopPhase::Rechecking;
                        StopAction::Probe
                    }
                },
                _ => {
                    if running {
                        self.phase = StopPhase::ForceKilling;
                        StopAction::Kill
                    } else {
                        self.phase = StopPhase::Releasing;
                        StopAction::ReleaseLock
                    }
                },
            },
            StopEvent::Completed { result: Ok(()) } => match phase {
                StopPhase::ShuttingDown => {
                    self.phase = StopPhase::Polling { rounds: 0 };
                    StopAction::Probe
                },
                StopPhase::ForceKilling => {
                    self.phase = StopPhase::Releasing;
                    StopAction::ReleaseLock
                },
                _ => {
                    self.phase = StopPhase::Finished;
                    StopAction::Finish { result: Ok(()) }
                },
            },
            StopEvent::Slept => match phase {
                StopPhase::Waiting { rounds } => {
                    self.phase = StopPhase::Polling { rounds: rounds + 1 };
                    StopAction::Probe
                },
                _ => StopAction::Probe,
            },
        }
    }
}

/// How many more steps a stop in `phase` can take at most.
pub open spec fn steps_left(phase: StopPhase) -> nat {
    match phase {
        StopPhase::Confirming => 26,
        StopPhase::ShuttingDown => 25,
        StopPhase::Polling { rounds } => (4 + 2 * (MAX_WAIT_ROUNDS - rounds)) as nat,
        StopPhase::Waiting { rounds } => (3 + 2 * (MAX_WAIT_ROUNDS - rounds)) as nat,
        StopPhase::Rechecking => 3,
        StopPhase::ForceKilling => 2,
        StopPhase::Releasing => 1,
        StopPhase::Finished => 0,
    }
}

/// How many more waits a stop in `phase` can make at most.
pub open spec fn waits_left(phase: StopPhase) -> nat {
    match phase {
        StopPhase::Confirming | StopPhase::ShuttingDown => MAX_WAIT_ROUNDS as nat,
        StopPhase::Polling { rounds } => (MAX_WAIT_ROUNDS - rounds) as nat,
        StopPhase::Waiting { rounds } => (MAX_WAIT_ROUNDS - rounds - 1) as nat,
        _ => 0,
    }
}

/// The actions that a stop gives for a run of outcomes, up to the first
/// outcome that it does not take.
pub open spec fn stop_run<E>(m: StopServer, events: Seq<StopEvent<E>>) -> Seq<StopAction<E>>
    decreases events.len(),
{
    if events.len() == 0 || !accepts(m.phase, events[0]) {
        seq![]
    } else {
        let (phase, action) = stop_step(m, events[0]);
        seq![action] + stop_run(StopServer { phase, ..m }, events.drop_first())
    }
}

/// How many of `actions` are waits.
pub open spec fn count_sleeps<E>(actions: Seq<StopAction<E>>) -> nat
    decreases actions.len(),
{
    if actions.len() == 0 {
        0
    } else {
        (if actions[0] is Sleep { 1nat } else { 0nat }) + count_sleeps(actions.drop_first())
    }
}

/// Every step that a stop takes brings it closer to its end, and keeps its
/// rounds within bounds.
pub proof fn law_stop_step_progresses<E>(m: StopServer, event: StopEvent<E>)
    requires
        phase_ok(m.phase),
        accepts(m.phase, event),
    ensures
        steps_left(stop_step(m, event).0) < steps_left(m.phase),
        phase_ok(stop_step(m, event).0),
        stop_step(m, event).1 is Sleep ==> waits_left(stop_step(m, event).0) + 1 == waits_left(
            m.phase,
        ),
        !(stop_step(m, event).1 is Sleep) ==> waits_left(stop_step(m, event).0) <= waits_left(
            m.phase,
        ),
{
}

/// A stop ends: whatever the outcomes, it takes at most as many steps as
/// `steps_left` says (26 from its start), and it waits at most
/// `MAX_WAIT_ROUNDS` times.
pub proof fn law_stop_run_is_bounded<E>(m: StopServer, events: Seq<StopEvent<E>>)
    requires
        phase_ok(m.phase),
    ensures
        stop_run(m, events).len() <= steps_left(m.phase),
        count_sleeps(stop_run(m, events)) <= waits_left(m.phase),
    decreases events.len(),
{
    if events.len() > 0 && accepts(m.phase, events[0]) {
        let (phase, action) = stop_step(m, events[0]);
        let next = StopServer { phase, ..m };
        law_stop_step_progresses(m, events[0]);
        law_stop_run_is_bounded(next, events.drop_first());
        let run = stop_run(m, events);
        assert(run.drop_first() =~= stop_run(next, events.drop_first()));
    }
}

/// A fresh stop makes at most `MAX_WAIT_ROUNDS` waits and 26 steps.
pub proof fn law_fresh_stop_is_bounded<E>(address: String, force: bool, events: Seq<StopEvent<E>>)
    ensures
        stop_run(StopServer { address, force, phase: StopPhase::Confirming }, events).len() <= 26,
        count_sleeps(stop_run(StopServer { address, force, phase: StopPhase::Confirming }, events))
            <= MAX_WAIT_ROUNDS,
{
    law_stop_run_is_bounded(StopServer { address, force, phase: StopPhase::Confirming }, events);
}

/// Where the first probe finds no server, the stop ends at once with
/// `NoServerRunning` for the address.
pub proof fn law_stop_without_server_fails<E>(address: String, force: bool)
    ensures
        stop_step(
            StopServer { address, force, phase: StopPhase::Confirming },
            StopEvent::<E>::Probed { running: Ok(false) },
        ) == (
            StopPhase::Finished,
            StopAction::<E>::Finish {
                result: Err(Failure::Manager(ManagerError::NoServerRunning { address })),
            },
        ),
{
}

/// Any error that an outside step reports ends the stop with that error.
pub proof fn law_stop_passes_errors_on<E>(m: StopServer, event: StopEvent<E>, e: Failure<E>)
    requires
        event == (StopEvent::Probed { running: Err(e) }) || event == (StopEvent::Completed {
            result: Err(e),
        }),
    ensures
        stop_step(m, event) == (StopPhase::Finished, StopAction::Finish { result: Err(e) }),
{
}

/// A stop succeeds only by releasing the lock: it ends well only after the
/// lock release ended well, and it releases the lock only once the server
/// was found gone or was killed.
pub proof fn law_stop_success_releases_lock<E>(m: StopServer, event: StopEvent<E>)
    requires
        accepts(m.phase, event),
    ensures
        stop_step(m, event).1 == (StopAction::<E>::Finish { result: Ok(()) }) ==> (m.phase
            == StopPhase::Releasing && event == (StopEvent::<E>::Completed { result: Ok(()) })),
        (stop_step(m, event).1 is ReleaseLock) ==> ((m.phase == StopPhase::Rechecking && event
            == (StopEvent::<E>::Probed { running: Ok(false) })) || (m.phase
            == StopPhase::ForceKilling && event == (StopEvent::<E>::Completed { result: Ok(()) }))),
{
    match event {
        StopEvent::Completed { result: Ok(u) } => {
            assert(u == ());
        },
        _ => {},
    }
}

/// The server's process is killed only when the stop is forced and a server
/// answered, or when it still answers after the waits.
pub proof fn law_stop_kills_only_when_needed<E>(m: StopServer, event: StopEvent<E>)
    requires
        accepts(m.phase, event),
    ensures
        (stop_step(m, event).1 is Kill) ==> (event == (StopEvent::<E>::Probed { running: Ok(true) })
            && ((m.phase == StopPhase::Confirming && m.force) || m.phase == StopPhase::Rechecking)),
{
}

/// A confirmed server is shut down: killed at once where the stop is forced,
/// else asked to shut down.
pub proof fn law_stop_shuts_down_confirmed_server<E>(m: StopServer)
    requires
        m.phase == StopPhase::Confirming,
    ensures
        stop_step(m, StopEvent::<E>::Probed { running: Ok(true) }).0 == StopPhase::ShuttingDown,
        m.force ==> stop_step(m, StopEvent::<E>::Probed { running: Ok(true) }).1 is Kill,
        !m.force ==> stop_step(m, StopEvent::<E>::Probed { running: Ok(true) }).1 is GracefulShutdown,
{
}

/// After the shutdown the server is polled, starting from round zero.
pub proof fn law_stop_polls_after_shutdown<E>(m: StopServer)
    requires
        m.phase == StopPhase::ShuttingDown,
    ensures
        stop_step(m, StopEvent::<E>::Completed { result: Ok(()) }) == (
            StopPhase::Polling { rounds: 0 },
            StopAction::<E>::Probe,
        ),
{
}

/// Polling: a server that is gone at any poll is probed once more; one that
/// still answers is waited for, 200 ms at a time, up to `MAX_WAIT_ROUNDS`
/// times; after the last wait it is probed once more.
pub proof fn law_stop_polling<E>(m: StopServer, rounds: u32)
    requires
        m.phase == (StopPhase::Polling { rounds }),
        rounds <= MAX_WAIT_ROUNDS,
    ensures
        stop_step(m, StopEvent::<E>::Probed { running: Ok(false) }) == (
            StopPhase::Rechecking,
            StopAction::<E>::Probe,
        ),
        rounds < MAX_WAIT_ROUNDS ==> stop_step(m, StopEvent::<E>::Probed { running: Ok(true) }) == (
            StopPhase::Waiting { rounds },
            StopAction::<E>::Sleep { millis: 200 },
        ),
        rounds == MAX_WAIT_ROUNDS ==> stop_step(m, StopEvent::<E>::Probed { running: Ok(true) }) == (
            StopPhase::Rechecking,
            StopAction::<E>::Probe,
        ),
{
}

/// A wait is followed by the next poll, one round further.
pub proof fn law_stop_wait_then_poll<E>(m: StopServer, rounds: u32)
    requires
        m.phase == (StopPhase::Waiting { rounds }),
        rounds < MAX_WAIT_ROUNDS,
    ensures
        stop_step(m, StopEvent::<E>::Slept) == (
            StopPhase::Polling { rounds: (rounds + 1) as u32 },
            StopAction::<E>::Probe,
        ),
{
}

/// The last probe decides: a server that still answers is killed and then
/// the lock is released; one that is gone leads straight to the release; a
/// release that went well ends the stop well.
pub proof fn law_stop_recheck_and_release<E>(m: StopServer)
    ensures
        m.phase == StopPhase::Rechecking ==> stop_step(m, StopEvent::<E>::Probed { running: Ok(true) }) == (
            StopPhase::ForceKilling,
            StopAction::<E>::Kill,
        ),
        m.phase == StopPhase::Rechecking ==> stop_step(m, StopEvent::<E>::Probed { running: Ok(false) }) == (
            StopPhase::Releasing,
            StopAction::<E>::ReleaseLock,
        ),
        m.phase == StopPhase::ForceKilling ==> stop_step(m, StopEvent::<E>::Completed { result: Ok(()) }) == (
            StopPhase::Releasing,
            StopAction::<E>::ReleaseLock,
        ),
        m.phase == StopPhase::Releasing ==> stop_step(m, StopEvent::<E>::Completed { result: Ok(()) }) == (
            StopPhase::Finished,
            StopAction::<E>::Finish { result: Ok(()) },
        ),
{
}

/// A server that is found gone at any poll makes the stop succeed: the last
/// probe, the lock release, and the end with `Ok(())`.
pub proof fn law_stop_succeeds_once_server_is_gone<E>(m: StopServer, rounds: u32)
    requires
        m.phase == (StopPhase::Polling { rounds }),
        rounds <= MAX_WAIT_ROUNDS,
    ensures
        stop_run(
            m,
            seq![
                StopEvent::<E>::Probed { running: Ok(false) },
                StopEvent::<E>::Probed { running: Ok(false) },
                StopEvent::<E>::Completed { result: Ok(()) },
            ],
        ) == seq![
            StopAction::<E>::Probe,
            StopAction::<E>::ReleaseLock,
            StopAction::<E>::Finish { result: Ok(()) },
        ],
{
    let events = seq![
        StopEvent::<E>::Probed { running: Ok(false) },
        StopEvent::<E>::Probed { running: Ok(false) },
        StopEvent::<E>::Completed { result: Ok(()) },
    ];
    let m1 = StopServer { phase: StopPhase::Rechecking, ..m };
    let m2 = StopServer { phase: StopPhase::Releasing, ..m };
    let m3 = StopServer { phase: StopPhase::Finished, ..m };
    let e1 = events.drop_first();
    let e2 = e1.drop_first();
    let e3 = e2.drop_first();
    assert(e3.len() == 0);
    assert(stop_run(m3, e3) == Seq::<StopAction<E>>::empty());
    assert(e2[0] == StopEvent::<E>::Completed { result: Ok(()) });
    assert(stop_run(m2, e2) =~= seq![StopAction::<E>::Finish { result: Ok(()) }]);
    assert(e1[0] == StopEvent::<E>::Probed { running: Ok(false) });
    assert(stop_run(m1, e1) =~= seq![StopAction::<E>::ReleaseLock, StopAction::<E>::Finish { result: Ok(()) }]);
    assert(events[0] == StopEvent::<E>::Probed { running: Ok(false) });
}

impl ServerManager {
    /// Begins stopping the server at `address` (killing it at once where
    /// `force`): the first action is a probe of the address.
    pub fn stop_server<E>(address: &str, force: bool) -> (r: (StopServer, StopAction<E>))
        ensures
            r.0.address@ == address@,
            r.0.force == force,
            r.0.phase == StopPhase::Confirming,
            r.1 is Probe,
    {
        (StopServer { address: address.to_owned(), force, phase: StopPhase::Confirming }, StopAction::Probe)
    }
}

} // verus!
