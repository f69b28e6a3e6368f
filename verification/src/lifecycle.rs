//! When the server that hosts a session ends.
//!
//! - The child exits: unless `linger`, the server stays up for the exit grace so
//!   that clients can read the final screen, status and exit code, then shuts down.
//! - With `linger` the server stays up after the child exits until a stop is
//!   requested; a stop then ends it after the same grace.
//! - Shutting down sets the session's shutting-down flag first, so that socket
//!   handlers send their `closed` frame and drop their sockets, and the graceful
//!   drain completes. A drain that does not complete within the backstop is
//!   abandoned: the server ends anyway.

use crate::time;
use std::time::Duration;
use vstd::prelude::*;

verus! {

/// Seconds the server stays up after the child exits when no timeout is given.
pub const DEFAULT_EXIT_GRACE_SECS: u64 = 5;

/// Seconds a graceful drain may take after the shutdown signal before it is
/// abandoned.
pub const DRAIN_BACKSTOP_SECS: u64 = 3;

/// What a session was started with that bears on the life of its server.
#[derive(Debug, Clone, Copy, PartialEq, Eq)]
pub struct Lifecycle {
    /// Seconds to stay up after the child exits.
    pub timeout: Option<u64>,
    /// Stay up after the child exits until a stop is requested.
    pub linger: bool,
}

/// The server's shutdown policy.
#[derive(Debug, Clone, Copy, PartialEq, Eq)]
pub struct ShutdownPolicy {
    pub linger: bool,
    pub exit_grace: Duration,
}

/// The default exit grace as a duration.
pub fn default_exit_grace() -> (grace: Duration)
    ensures
        time::duration_nanos(grace) == DEFAULT_EXIT_GRACE_SECS * 1_000_000_000,
        time::duration_nanos(grace) == 5_000_000_000,
{
    Duration::from_secs(DEFAULT_EXIT_GRACE_SECS)
}

/// The drain backstop as a duration.
pub fn drain_backstop() -> (backstop: Duration)
    ensures
        time::duration_nanos(backstop) == DRAIN_BACKSTOP_SECS * 1_000_000_000,
        time::duration_nanos(backstop) == 3_000_000_000,
{
    Duration::from_secs(DRAIN_BACKSTOP_SECS)
}

impl Lifecycle {
    /// Seconds that the server outlives the child.
    pub open spec fn grace_secs(self) -> nat {
        match self.timeout {
            Some(secs) => secs as nat,
            None => DEFAULT_EXIT_GRACE_SECS as nat,
        }
    }
}

impl ShutdownPolicy {
    /// From the session's recorded timeout and linger.
    pub fn from_lifecycle(lc: &Lifecycle) -> (policy: Self)
        ensures
            policy.linger == lc.linger,
            time::duration_nanos(policy.exit_grace) == 1_000_000_000 * match lc.timeout {
                Some(secs) => secs,
                None => DEFAULT_EXIT_GRACE_SECS,
            },
            time::duration_nanos(policy.exit_grace) == 1_000_000_000 * lc.grace_secs(),
    {
        ShutdownPolicy {
            linger: lc.linger,
            exit_grace: match lc.timeout {
                Some(secs) => Duration::from_secs(secs),
                None => default_exit_grace(),
            },
        }
    }
}

/// How far a shutdown has come.
#[derive(Debug, Clone, Copy, PartialEq, Eq, Structural)]
pub enum ShutdownPhase {
    /// The child runs and no stop has been requested.
    AwaitingExitOrStop,
    /// Whether a stop has been requested is being read.
    ReadingStop,
    /// The child has exited; the server lingers until a stop is requested.
    AwaitingStop,
    /// The exit grace is running.
    Grace,
    /// The shutting-down flag is being set.
    Flagging,
    /// The server is to stop accepting and drain.
    Resolved,
}

/// A shutdown under a policy.
#[derive(Debug, Clone, Copy, PartialEq, Eq)]
pub struct ShutdownState {
    pub policy: ShutdownPolicy,
    pub phase: ShutdownPhase,
}

/// What is to be done next.
#[derive(Debug, Clone, Copy, PartialEq, Eq)]
pub enum ShutdownAction {
    /// Wait until the child has exited or a stop is requested.
    AwaitExitOrStop,
    /// Read whether a stop has been requested.
    ReadStopRequested,
    /// Wait until a stop is requested.
    AwaitStop,
    /// Let this time pass.
    Sleep(Duration),
    /// Set the session's shutting-down flag.
    SetShuttingDown,
    /// Stop accepting and drain.
    Resolve,
    /// Nothing: the event is none that was waited for.
    Ignore,
}

/// What came of it. A flag that will never be set any more, because its sender is
/// gone, counts as set.
#[derive(Debug, Clone, Copy, PartialEq, Eq, Structural)]
pub enum ShutdownEvent {
    /// The child has exited.
    Exited,
    /// A stop is requested.
    StopRequested,
    /// Whether a stop had been requested when it was read.
    StopFlag(bool),
    /// The time has passed.
    GraceElapsed,
    /// The shutting-down flag is set.
    FlagSet,
}

impl ShutdownState {
    /// The same shutdown in another phase.
    pub open spec fn at(self, phase: ShutdownPhase) -> ShutdownState {
        ShutdownState { policy: self.policy, phase }
    }
}

/// The step that an event leads to.
pub open spec fn next_shutdown(state: ShutdownState, event: ShutdownEvent) -> (
    ShutdownState,
    ShutdownAction,
) {
    match (state.phase, event) {
        (ShutdownPhase::AwaitingExitOrStop, ShutdownEvent::Exited) => (
            state.at(ShutdownPhase::ReadingStop),
            ShutdownAction::ReadStopRequested,
        ),
        (ShutdownPhase::AwaitingExitOrStop, ShutdownEvent::StopRequested) => (
            state.at(ShutdownPhase::ReadingStop),
            ShutdownAction::ReadStopRequested,
        ),
        (ShutdownPhase::ReadingStop, ShutdownEvent::StopFlag(requested)) => if state.policy.linger
            && !requested {
            (state.at(ShutdownPhase::AwaitingStop), ShutdownAction::AwaitStop)
        } else {
            (state.at(ShutdownPhase::Grace), ShutdownAction::Sleep(state.policy.exit_grace))
        },
        (ShutdownPhase::AwaitingStop, ShutdownEvent::StopRequested) => (
            state.at(ShutdownPhase::Grace),
            ShutdownAction::Sleep(state.policy.exit_grace),
        ),
        (ShutdownPhase::Grace, ShutdownEvent::GraceElapsed) => (
            state.at(ShutdownPhase::Flagging),
            ShutdownAction::SetShuttingDown,
        ),
        (ShutdownPhase::Flagging, ShutdownEvent::FlagSet) => (
            state.at(ShutdownPhase::Resolved),
            ShutdownAction::Resolve,
        ),
        _ => (state, ShutdownAction::Ignore),
    }
}

/// The first step of a shutdown.
pub open spec fn first_shutdown(policy: ShutdownPolicy) -> (ShutdownState, ShutdownAction) {
    (
        ShutdownState { policy, phase: ShutdownPhase::AwaitingExitOrStop },
        ShutdownAction::AwaitExitOrStop,
    )
}

/// Begins to watch for the end of the server. Either the child exits, or a stop is
/// requested: a stop also ends the child, but a stop on an already-exited lingering
/// session must still end the server.
pub fn begin_shutdown(policy: ShutdownPolicy) -> (step: (ShutdownState, ShutdownAction))
    ensures
        step == first_shutdown(policy),
{
    (
        ShutdownState { policy, phase: ShutdownPhase::AwaitingExitOrStop },
        ShutdownAction::AwaitExitOrStop,
    )
}

/// Goes on with what came of the last action.
pub fn advance_shutdown(state: ShutdownState, event: ShutdownEvent) -> (step: (
    ShutdownState,
    ShutdownAction,
))
    ensures
        step == next_shutdown(state, event),
{
    let policy = state.policy;
    let (phase, action) = match (state.phase, event) {
        (ShutdownPhase::AwaitingExitOrStop, ShutdownEvent::Exited) => (
            ShutdownPhase::ReadingStop,
            ShutdownAction::ReadStopRequested,
        ),
        (ShutdownPhase::AwaitingExitOrStop, ShutdownEvent::StopRequested) => (
            ShutdownPhase::ReadingStop,
            ShutdownAction::ReadStopRequested,
        ),
        (ShutdownPhase::ReadingStop, ShutdownEvent::StopFlag(requested)) => if policy.linger
            && !requested {
            (ShutdownPhase::AwaitingStop, ShutdownAction::AwaitStop)
        } else {
            (ShutdownPhase::Grace, ShutdownAction::Sleep(policy.exit_grace))
        },
        (ShutdownPhase::AwaitingStop, ShutdownEvent::StopRequested) => (
            ShutdownPhase::Grace,
            ShutdownAction::Sleep(policy.exit_grace),
        ),
        (ShutdownPhase::Grace, ShutdownEvent::GraceElapsed) => (
            ShutdownPhase::Flagging,
            ShutdownAction::SetShuttingDown,
        ),
        (ShutdownPhase::Flagging, ShutdownEvent::FlagSet) => (
            ShutdownPhase::Resolved,
            ShutdownAction::Resolve,
        ),
        (phase, _) => (phase, ShutdownAction::Ignore),
    };
    (ShutdownState { policy, phase }, action)
}

/// How far a server has come.
#[derive(Debug, Clone, Copy, PartialEq, Eq)]
pub enum ServerState {
    /// The server accepts requests.
    Serving(ShutdownState),
    /// The server has stopped accepting and drains; the backstop is running.
    Draining,
    /// The server has ended.
    Ended,
}

/// How a server ended; `E` is the error of serving.
#[derive(Debug, PartialEq)]
pub enum ServerEnd<E> {
    /// The drain completed.
    Finished,
    /// Serving failed.
    Failed(E),
    /// The drain took longer than the backstop; it was given up, which is no
    /// failure.
    Abandoned,
}

/// What is to be done next for a server that keeps serving meanwhile.
#[derive(Debug, PartialEq)]
pub enum ServerAction<E> {
    /// A step of the shutdown.
    Shutdown(ShutdownAction),
    /// Stop accepting, drain, and start the backstop.
    Drain,
    /// End the server.
    End(ServerEnd<E>),
    /// Nothing: the event is none that was waited for.
    Ignore,
}

/// What happens to a server.
#[derive(Debug, PartialEq)]
pub enum ServerEvent<E> {
    /// Something that bears on the shutdown.
    Shutdown(ShutdownEvent),
    /// Serving came to its end without an error. A graceful server does so only
    /// after it was told to drain, so this is one of the two answers to a drain.
    Drained,
    /// Serving came to its end with an error.
    ServeFailed(E),
    /// The backstop's time has passed, which is the other answer to a drain.
    BackstopElapsed,
}

/// A failure of the server: the error of serving, and what it is an error of.
#[derive(Debug, PartialEq)]
pub struct ServerError<E> {
    pub context: &'static str,
    pub error: E,
}

/// The step that an event leads to.
pub open spec fn next_server<E>(state: ServerState, event: ServerEvent<E>) -> (
    ServerState,
    ServerAction<E>,
) {
    match (state, event) {
        (ServerState::Ended, _) => (ServerState::Ended, ServerAction::Ignore),
        (_, ServerEvent::ServeFailed(error)) => (
            ServerState::Ended,
            ServerAction::End(ServerEnd::Failed(error)),
        ),
        (ServerState::Serving(shutdown), ServerEvent::Shutdown(event)) => {
            let (next, action) = next_shutdown(shutdown, event);
            match action {
                ShutdownAction::Resolve => (ServerState::Draining, ServerAction::Drain),
                ShutdownAction::Ignore => (ServerState::Serving(next), ServerAction::Ignore),
                _ => (ServerState::Serving(next), ServerAction::Shutdown(action)),
            }
        },
        (ServerState::Draining, ServerEvent::Drained) => (
            ServerState::Ended,
            ServerAction::End(ServerEnd::Finished),
        ),
        (ServerState::Draining, ServerEvent::BackstopElapsed) => (
            ServerState::Ended,
            ServerAction::End(ServerEnd::Abandoned),
        ),
        (state, _) => (state, ServerAction::Ignore),
    }
}

/// The first step of a server.
pub open spec fn first_server<E>(policy: ShutdownPolicy) -> (ServerState, ServerAction<E>) {
    (
        ServerState::Serving(first_shutdown(policy).0),
        ServerAction::Shutdown(first_shutdown(policy).1),
    )
}

/// Begins to serve.
pub fn begin_server<E>(policy: ShutdownPolicy) -> (step: (ServerState, ServerAction<E>))
    ensures
        step == first_server::<E>(policy),
{
    let (shutdown, action) = begin_shutdown(policy);
    (ServerState::Serving(shutdown), ServerAction::Shutdown(action))
}

/// Goes on with what has happened.
pub fn advance_server<E>(state: ServerState, event: ServerEvent<E>) -> (step: (
    ServerState,
    ServerAction<E>,
))
    ensures
        step == next_server(state, event),
{
    match (state, event) {
        (ServerState::Ended, _) => (ServerState::Ended, ServerAction::Ignore),
        (_, ServerEvent::ServeFailed(error)) => (
            ServerState::Ended,
            ServerAction::End(ServerEnd::Failed(error)),
        ),
        (ServerState::Serving(shutdown), ServerEvent::Shutdown(event)) => {
            let (next, action) = advance_shutdown(shutdown, event);
            match action {
                ShutdownAction::Resolve => (ServerState::Draining, ServerAction::Drain),
                ShutdownAction::Ignore => (ServerState::Serving(next), ServerAction::Ignore),
                _ => (ServerState::Serving(next), ServerAction::Shutdown(action)),
            }
        },
        (ServerState::Draining, ServerEvent::Drained) => (
            ServerState::Ended,
            ServerAction::End(ServerEnd::Finished),
        ),
        (ServerState::Draining, ServerEvent::BackstopElapsed) => (
            ServerState::Ended,
            ServerAction::End(ServerEnd::Abandoned),
        ),
        (state, _) => (state, ServerAction::Ignore),
    }
}

/// The result of a server that has ended. A server that finished, and one whose
/// drain was given up, did well; a failure keeps its error and is named for what it
/// is.
pub fn server_result<E>(end: ServerEnd<E>) -> (result: Result<(), ServerError<E>>)
    ensures
        match end {
            ServerEnd::Finished => result is Ok,
            ServerEnd::Abandoned => result is Ok,
            ServerEnd::Failed(error) => result matches Err(e) && e.error == error && e.context@
                == "HTTP server error"@,
        },
{
    match end {
        ServerEnd::Finished => Ok(()),
        ServerEnd::Abandoned => Ok(()),
        ServerEnd::Failed(error) => Err(ServerError { context: "HTTP server error", error }),
    }
}

} // verus!
