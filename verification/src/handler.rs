//! Serving one request: when the session is locked, what is asked of it, and what
//! the request is answered with.
//!
//! A request is served in steps. Each step names one action; what comes of it is
//! handed back as an event, which leads to the next step. Waiting for the screen
//! and stopping the child take long, so they run on handles that were taken from
//! the session, after its lock has been released.

use crate::reply::{Answer, SessionStatus, StopOutcome};
use crate::routes::Endpoint;
use crate::screen::{build_screen_opts, screen_format, ScreenFormat, ScreenOpts, ScreenParams};
use crate::wait::{plan_wait, WaitParams, WaitPlan};
use std::time::Duration;
use vstd::prelude::*;

verus! {

/// How many scrollback lines are returned where the request does not say.
pub const DEFAULT_SCROLLBACK_LINES: usize = 100;

/// Request body for send endpoint.
#[derive(Debug, PartialEq)]
pub struct SendRequest {
    pub keys: String,
}

/// Request body for resize endpoint.
#[derive(Debug, PartialEq)]
pub struct ResizeRequest {
    pub cols: u16,
    pub rows: u16,
}

/// Query parameters for scrollback endpoint.
#[derive(Debug, PartialEq)]
pub struct ScrollbackParams {
    /// Number of scrollback lines to return (default: 100).
    pub lines: Option<usize>,
}

impl Default for ScrollbackParams {
    fn default() -> (params: Self)
        ensures
            params.lines is None,
    {
        ScrollbackParams { lines: None }
    }
}

/// A request to the server.
#[derive(Debug, PartialEq)]
pub enum Request {
    Screen(ScreenParams),
    Cursor,
    Status,
    Scrollback(ScrollbackParams),
    Wait(WaitParams),
    Send(SendRequest),
    Resize(ResizeRequest),
    /// Stop the child. A client does not say how long the child has between the
    /// first signal and the last: `grace` is the session's default.
    Stop { grace: Duration },
}

impl Request {
    /// The endpoint that serves the request.
    pub open spec fn spec_endpoint(self) -> Endpoint {
        match self {
            Request::Screen(_) => Endpoint::Screen,
            Request::Cursor => Endpoint::Cursor,
            Request::Status => Endpoint::Status,
            Request::Scrollback(_) => Endpoint::Scrollback,
            Request::Wait(_) => Endpoint::Wait,
            Request::Send(_) => Endpoint::Send,
            Request::Resize(_) => Endpoint::Resize,
            Request::Stop { .. } => Endpoint::Stop,
        }
    }

    /// The endpoint that serves the request.
    pub fn endpoint(&self) -> (endpoint: Endpoint)
        ensures
            endpoint == self.spec_endpoint(),
    {
        match self {
            Request::Screen(_) => Endpoint::Screen,
            Request::Cursor => Endpoint::Cursor,
            Request::Status => Endpoint::Status,
            Request::Scrollback(_) => Endpoint::Scrollback,
            Request::Wait(_) => Endpoint::Wait,
            Request::Send(_) => Endpoint::Send,
            Request::Resize(_) => Endpoint::Resize,
            Request::Stop { .. } => Endpoint::Stop,
        }
    }
}

/// A call on the session, made while its lock is held.
#[derive(Debug, PartialEq)]
pub enum SessionCall {
    Screen(ScreenOpts),
    ScreenStyled(ScreenOpts),
    ScreenHtml(ScreenOpts),
    Cursor,
    Status,
    Scrollback(usize),
    SendKeys(String),
    Resize { cols: u16, rows: u16 },
    /// Take a handle to wait on.
    WaitHandle,
    /// Take a handle to stop the child with.
    StopHandle,
    /// Read whether the child runs, and its exit code.
    BasicStatus,
}

/// The result of a session call that is still to come.
#[derive(Debug, PartialEq)]
pub enum Pending {
    Screen,
    ScreenStyled,
    ScreenHtml,
    Cursor,
    Status,
    Scrollback,
    SendKeys,
    Resize,
    WaitHandle(WaitPlan),
    StopHandle(Duration),
    BasicStatus(StopOutcome),
}

/// What follows once the lock has been released.
#[derive(Debug, PartialEq)]
pub enum After {
    Respond(Answer),
    WaitFor(WaitPlan),
    Stop(Duration),
}

/// How far a request has come.
#[derive(Debug, PartialEq)]
pub enum HandlerState {
    /// The lock has been asked for.
    Locking { call: SessionCall, pending: Pending },
    /// The lock is held and a call is being made.
    Calling(Pending),
    /// The lock is being released.
    Unlocking(After),
    /// A wait is running.
    Waiting,
    /// A stop is running.
    Stopping,
    /// The request has been answered.
    Answered,
}

/// What is to be done next for a request.
#[derive(Debug, PartialEq)]
pub enum HandlerAction {
    /// Take the session's lock.
    Lock,
    /// Make this call on the locked session.
    Call(SessionCall),
    /// Release the session's lock.
    Unlock,
    /// Wait on the handle that was taken.
    WaitFor(WaitPlan),
    /// Stop the child with the handle that was taken, giving it this time between
    /// the first signal and the last.
    Stop(Duration),
    /// Answer the request.
    Respond(Answer),
    /// Nothing: the event is none that was waited for.
    Ignore,
}

/// What came of an action.
#[derive(Debug, PartialEq)]
pub enum HandlerEvent {
    /// The lock is held.
    Locked,
    /// The lock has been released.
    Unlocked,
    /// The screen, as an encoded document.
    Screen(String),
    /// The styled screen, as an encoded document.
    ScreenStyled(String),
    /// The screen as a page.
    ScreenHtml(String),
    Cursor { row: usize, col: usize },
    Status(SessionStatus),
    Scrollback(Vec<String>),
    /// The keys were sent, or why not.
    KeysSent(Result<(), String>),
    /// The terminal has its new size, or why not.
    Resized(Result<(), String>),
    /// A handle was taken.
    HandleTaken,
    /// A wait has ended, with its outcome as an encoded document, or why it could
    /// not be run.
    WaitEnded(Result<String, String>),
    /// A stop has ended.
    StopEnded(StopOutcome),
    BasicStatus { alive: bool, exit_code: Option<i32> },
}

/// The answer for keys that were sent or not.
pub open spec fn sent_answer(result: Result<(), String>) -> Answer {
    match result {
        Ok(_) => Answer::Done,
        Err(message) => Answer::Refused(message),
    }
}

/// The answer for a size that was set or not.
pub open spec fn resized_answer(result: Result<(), String>) -> Answer {
    match result {
        Ok(_) => Answer::Done,
        Err(message) => Answer::Failed(message),
    }
}

/// The answer for a wait that has ended or could not be run.
pub open spec fn waited_answer(result: Result<String, String>) -> Answer {
    match result {
        Ok(outcome) => Answer::Waited(outcome),
        Err(message) => Answer::Refused(message),
    }
}

/// What follows the result of a session call, if it is the result that is due.
pub open spec fn after_call(pending: Pending, event: HandlerEvent) -> Option<After> {
    match (pending, event) {
        (Pending::Screen, HandlerEvent::Screen(text)) => Some(After::Respond(Answer::Screen(text))),
        (Pending::ScreenStyled, HandlerEvent::ScreenStyled(text)) => Some(
            After::Respond(Answer::Screen(text)),
        ),
        (Pending::ScreenHtml, HandlerEvent::ScreenHtml(html)) => Some(
            After::Respond(Answer::ScreenHtml(html)),
        ),
        (Pending::Cursor, HandlerEvent::Cursor { row, col }) => Some(
            After::Respond(Answer::Cursor { row, col }),
        ),
        (Pending::Status, HandlerEvent::Status(status)) => Some(
            After::Respond(Answer::Status(status)),
        ),
        (Pending::Scrollback, HandlerEvent::Scrollback(lines)) => Some(
            After::Respond(Answer::Scrollback(lines)),
        ),
        (Pending::SendKeys, HandlerEvent::KeysSent(result)) => Some(
            After::Respond(sent_answer(result)),
        ),
        (Pending::Resize, HandlerEvent::Resized(result)) => Some(
            After::Respond(resized_answer(result)),
        ),
        (Pending::WaitHandle(plan), HandlerEvent::HandleTaken) => Some(After::WaitFor(plan)),
        (Pending::StopHandle(grace), HandlerEvent::HandleTaken) => Some(After::Stop(grace)),
        (Pending::BasicStatus(outcome), HandlerEvent::BasicStatus { alive, exit_code }) => Some(
            After::Respond(Answer::Stopped { outcome, alive, exit_code }),
        ),
        _ => None,
    }
}

/// The session call that a request begins with, and the result that is then due.
pub open spec fn first_call(request: Request) -> Option<(SessionCall, Pending)> {
    match request {
        Request::Screen(params) => Some(
            match params.asked_format() {
                ScreenFormat::Text => (SessionCall::Screen(params.asked_opts()), Pending::Screen),
                ScreenFormat::Styled => (
                    SessionCall::ScreenStyled(params.asked_opts()),
                    Pending::ScreenStyled,
                ),
                ScreenFormat::Html => (
                    SessionCall::ScreenHtml(params.asked_opts()),
                    Pending::ScreenHtml,
                ),
            },
        ),
        Request::Cursor => Some((SessionCall::Cursor, Pending::Cursor)),
        Request::Status => Some((SessionCall::Status, Pending::Status)),
        Request::Scrollback(params) => Some(
            (
                SessionCall::Scrollback(
                    match params.lines {
                        Some(count) => count,
                        None => DEFAULT_SCROLLBACK_LINES,
                    },
                ),
                Pending::Scrollback,
            ),
        ),
        Request::Wait(params) => match params.asked_plan() {
            Some(plan) => Some((SessionCall::WaitHandle, Pending::WaitHandle(plan))),
            None => None,
        },
        Request::Send(request) => Some((SessionCall::SendKeys(request.keys), Pending::SendKeys)),
        Request::Resize(request) => Some(
            (
                SessionCall::Resize { cols: request.cols, rows: request.rows },
                Pending::Resize,
            ),
        ),
        Request::Stop { grace } => Some((SessionCall::StopHandle, Pending::StopHandle(grace))),
    }
}

/// The first step of a request: lock the session, or answer at once where the
/// request cannot be served.
pub open spec fn first_step(request: Request) -> (HandlerState, HandlerAction) {
    match first_call(request) {
        Some((call, pending)) => (HandlerState::Locking { call, pending }, HandlerAction::Lock),
        None => (HandlerState::Answered, HandlerAction::Respond(Answer::WaitUsage)),
    }
}

/// The step that an event leads to.
pub open spec fn next_step(state: HandlerState, event: HandlerEvent) -> (
    HandlerState,
    HandlerAction,
) {
    match (state, event) {
        (HandlerState::Locking { call, pending }, HandlerEvent::Locked) => (
            HandlerState::Calling(pending),
            HandlerAction::Call(call),
        ),
        (HandlerState::Calling(pending), event) => match after_call(pending, event) {
            Some(after) => (HandlerState::Unlocking(after), HandlerAction::Unlock),
            None => (HandlerState::Calling(pending), HandlerAction::Ignore),
        },
        (HandlerState::Unlocking(After::Respond(answer)), HandlerEvent::Unlocked) => (
            HandlerState::Answered,
            HandlerAction::Respond(answer),
        ),
        (HandlerState::Unlocking(After::WaitFor(plan)), HandlerEvent::Unlocked) => (
            HandlerState::Waiting,
            HandlerAction::WaitFor(plan),
        ),
        (HandlerState::Unlocking(After::Stop(grace)), HandlerEvent::Unlocked) => (
            HandlerState::Stopping,
            HandlerAction::Stop(grace),
        ),
        (HandlerState::Waiting, HandlerEvent::WaitEnded(result)) => (
            HandlerState::Answered,
            HandlerAction::Respond(waited_answer(result)),
        ),
        (HandlerState::Stopping, HandlerEvent::StopEnded(outcome)) => (
            HandlerState::Locking {
                call: SessionCall::BasicStatus,
                pending: Pending::BasicStatus(outcome),
            },
            HandlerAction::Lock,
        ),
        (state, _) => (state, HandlerAction::Ignore),
    }
}

/// Begins to serve a request.
pub fn begin(request: Request) -> (step: (HandlerState, HandlerAction))
    requires
        request matches Request::Screen(params) ==> params.ranges_fit(),
    ensures
        step == first_step(request),
{
    let (call, pending) = match request {
        Request::Screen(params) => {
            let opts = build_screen_opts(&params);
            match screen_format(&params) {
                ScreenFormat::Text => (SessionCall::Screen(opts), Pending::Screen),
                ScreenFormat::Styled => (SessionCall::ScreenStyled(opts), Pending::ScreenStyled),
                ScreenFormat::Html => (SessionCall::ScreenHtml(opts), Pending::ScreenHtml),
            }
        },
        Request::Cursor => (SessionCall::Cursor, Pending::Cursor),
        Request::Status => (SessionCall::Status, Pending::Status),
        Request::Scrollback(params) => {
            let count: usize = match params.lines {
                Some(count) => count,
                None => DEFAULT_SCROLLBACK_LINES,
            };
            (SessionCall::Scrollback(count), Pending::Scrollback)
        },
        Request::Wait(params) => match plan_wait(params) {
            Some(plan) => (SessionCall::WaitHandle, Pending::WaitHandle(plan)),
            None => {
                return (HandlerState::Answered, HandlerAction::Respond(Answer::WaitUsage));
            },
        },
        Request::Send(request) => (SessionCall::SendKeys(request.keys), Pending::SendKeys),
        Request::Resize(request) => (
            SessionCall::Resize { cols: request.cols, rows: request.rows },
            Pending::Resize,
        ),
        Request::Stop { grace } => (SessionCall::StopHandle, Pending::StopHandle(grace)),
    };
    (HandlerState::Locking { call, pending }, HandlerAction::Lock)
}

/// Takes the result of a session call.
fn take_result(pending: Pending, event: HandlerEvent) -> (step: (HandlerState, HandlerAction))
    ensures
        step == next_step(HandlerState::Calling(pending), event),
{
    let after = match (pending, event) {
        (Pending::Screen, HandlerEvent::Screen(text)) => After::Respond(Answer::Screen(text)),
        (Pending::ScreenStyled, HandlerEvent::ScreenStyled(text)) => After::Respond(
            Answer::Screen(text),
        ),
        (Pending::ScreenHtml, HandlerEvent::ScreenHtml(html)) => After::Respond(
            Answer::ScreenHtml(html),
        ),
        (Pending::Cursor, HandlerEvent::Cursor { row, col }) => After::Respond(
            Answer::Cursor { row, col },
        ),
        (Pending::Status, HandlerEvent::Status(status)) => After::Respond(Answer::Status(status)),
        (Pending::Scrollback, HandlerEvent::Scrollback(lines)) => After::Respond(
            Answer::Scrollback(lines),
        ),
        (Pending::SendKeys, HandlerEvent::KeysSent(result)) => After::Respond(
            match result {
                Ok(_) => Answer::Done,
                Err(message) => Answer::Refused(message),
            },
        ),
        (Pending::Resize, HandlerEvent::Resized(result)) => After::Respond(
            match result {
                Ok(_) => Answer::Done,
                Err(message) => Answer::Failed(message),
            },
        ),
        (Pending::WaitHandle(plan), HandlerEvent::HandleTaken) => After::WaitFor(plan),
        (Pending::StopHandle(grace), HandlerEvent::HandleTaken) => After::Stop(grace),
        (Pending::BasicStatus(outcome), HandlerEvent::BasicStatus { alive, exit_code }) =>
            After::Respond(Answer::Stopped { outcome, alive, exit_code }),
        (pending, _) => {
            return (HandlerState::Calling(pending), HandlerAction::Ignore);
        },
    };
    (HandlerState::Unlocking(after), HandlerAction::Unlock)
}

/// Goes on serving a request with what came of its last action.
pub fn advance(state: HandlerState, event: HandlerEvent) -> (step: (HandlerState, HandlerAction))
    ensures
        step == next_step(state, event),
{
    match (state, event) {
        (HandlerState::Locking { call, pending }, HandlerEvent::Locked) => (
            HandlerState::Calling(pending),
            HandlerAction::Call(call),
        ),
        (HandlerState::Calling(pending), event) => take_result(pending, event),
        (HandlerState::Unlocking(after), HandlerEvent::Unlocked) => match after {
            After::Respond(answer) => (HandlerState::Answered, HandlerAction::Respond(answer)),
            After::WaitFor(plan) => (HandlerState::Waiting, HandlerAction::WaitFor(plan)),
            After::Stop(grace) => (HandlerState::Stopping, HandlerAction::Stop(grace)),
        },
        (HandlerState::Waiting, HandlerEvent::WaitEnded(result)) => {
            let answer = match result {
                Ok(outcome) => Answer::Waited(outcome),
                Err(message) => Answer::Refused(message),
            };
            (HandlerState::Answered, HandlerAction::Respond(answer))
        },
        (HandlerState::Stopping, HandlerEvent::StopEnded(outcome)) => (
            HandlerState::Locking {
                call: SessionCall::BasicStatus,
                pending: Pending::BasicStatus(outcome),
            },
            HandlerAction::Lock,
        ),
        (state, _) => (state, HandlerAction::Ignore),
    }
}

} // verus!
