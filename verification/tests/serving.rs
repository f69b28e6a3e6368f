//! Requests served against a session in memory, and the life of the server around
//! it, on a clock that only moves when something sleeps.

use ptyctl::handler::{
    advance, begin, HandlerAction, HandlerEvent, HandlerState, Request, ResizeRequest,
    ScrollbackParams, SendRequest, SessionCall,
};
use ptyctl::lifecycle::{
    advance_server, advance_shutdown, begin_server, begin_shutdown, default_exit_grace,
    drain_backstop, server_result, Lifecycle, ServerAction, ServerEnd, ServerError, ServerEvent,
    ServerState, ShutdownAction, ShutdownEvent, ShutdownPhase, ShutdownPolicy,
};
use ptyctl::reply::{respond, Response, SessionStatus, StopOutcome};
use ptyctl::screen::{ScreenOpts, ScreenParams};
use ptyctl::wait::{wait_timeout, WaitCondition, WaitParams, WaitPlan};
use ptyctl::watch::{advance_watch, watch, WatchAction, WatchEvent, WatchState};
use ptyctl::ws::{
    advance_sender, begin_sender, encode_frame, SenderAction, SenderEvent, SenderState, WireFrame,
};
use std::time::Duration;

/// The session's default stop grace.
fn stop_grace() -> Duration {
    Duration::from_millis(2500)
}

/// A session whose child is a shell that only knows `echo` and `exit`.
struct Shell {
    locked: bool,
    alive: bool,
    exit_code: Option<i32>,
    size: (u16, u16),
    screen: String,
    lines: Vec<String>,
}

impl Shell {
    fn new() -> Shell {
        Shell {
            locked: false,
            alive: true,
            exit_code: None,
            size: (80, 24),
            screen: String::new(),
            lines: vec!["first".to_string(), "second".to_string(), "third".to_string()],
        }
    }

    fn exited(code: i32) -> Shell {
        Shell { alive: false, exit_code: Some(code), ..Shell::new() }
    }

    fn call(&mut self, call: SessionCall) -> HandlerEvent {
        assert!(self.locked, "called without the lock: {call:?}");
        match call {
            SessionCall::Screen(opts) => {
                HandlerEvent::Screen(format!("{{\"text\":{:?},\"opts\":\"{opts:?}\"}}", self.screen))
            }
            SessionCall::ScreenStyled(_) => {
                HandlerEvent::ScreenStyled(format!("[{:?}]", self.screen))
            }
            SessionCall::ScreenHtml(_) => {
                HandlerEvent::ScreenHtml(format!("<pre>{}</pre>", self.screen))
            }
            SessionCall::Cursor => HandlerEvent::Cursor { row: 1, col: self.screen.len() + 1 },
            SessionCall::Status => HandlerEvent::Status(SessionStatus {
                alive: self.alive,
                pid: Some(77),
                exit_code: self.exit_code,
                size: self.size,
                modes: serde_json::Value::Null,
                scrollback_lines: self.lines.len(),
            }),
            SessionCall::Scrollback(count) => {
                HandlerEvent::Scrollback(self.lines.iter().take(count).cloned().collect())
            }
            SessionCall::SendKeys(keys) => HandlerEvent::KeysSent(self.send_keys(&keys)),
            SessionCall::Resize { cols, rows } => {
                if cols == 0 || rows == 0 {
                    return HandlerEvent::Resized(Err("no such size".to_string()));
                }
                self.size = (cols, rows);
                HandlerEvent::Resized(Ok(()))
            }
            SessionCall::WaitHandle => HandlerEvent::HandleTaken,
            SessionCall::StopHandle => HandlerEvent::HandleTaken,
            SessionCall::BasicStatus => {
                HandlerEvent::BasicStatus { alive: self.alive, exit_code: self.exit_code }
            }
        }
    }

    fn send_keys(&mut self, keys: &str) -> Result<(), String> {
        let line = keys.strip_suffix("<CR>").ok_or("unknown key".to_string())?;
        if line == "exit" {
            self.alive = false;
            self.exit_code = Some(0);
        } else {
            self.screen.push_str(line.strip_prefix("echo ").unwrap_or(line));
        }
        Ok(())
    }

    fn wait(&self, plan: WaitPlan) -> Result<String, String> {
        assert!(!self.locked, "waited with the lock held");
        let matched = match plan.condition {
            WaitCondition::Text(text) => self.screen.contains(&text),
            WaitCondition::Gone(text) => !self.screen.contains(&text),
            WaitCondition::StableMs(ms) => ms <= plan.timeout_ms,
            WaitCondition::Regex(pattern) => return Err(format!("no such pattern: {pattern}")),
        };
        Ok(format!("{{\"matched\":{matched}}}"))
    }

    fn stop(&mut self) -> StopOutcome {
        assert!(!self.locked, "stopped with the lock held");
        if !self.alive {
            return StopOutcome { signalled: "none".to_string(), exited: true };
        }
        self.alive = false;
        self.exit_code = Some(143);
        StopOutcome { signalled: "SIGTERM".to_string(), exited: true }
    }

    /// Performs an action that is no wait and no answer.
    fn perform(&mut self, action: HandlerAction) -> HandlerEvent {
        match action {
            HandlerAction::Lock => {
                assert!(!self.locked, "locked twice");
                self.locked = true;
                HandlerEvent::Locked
            }
            HandlerAction::Call(call) => self.call(call),
            HandlerAction::Unlock => {
                assert!(self.locked, "unlocked twice");
                self.locked = false;
                HandlerEvent::Unlocked
            }
            HandlerAction::Stop(grace) => {
                assert_eq!(grace, stop_grace());
                HandlerEvent::StopEnded(self.stop())
            }
            other => panic!("{other:?}"),
        }
    }

    /// Serves a request up to its wait.
    fn serve_up_to_wait(&mut self, request: Request) -> (HandlerState, WaitPlan) {
        let (mut state, mut action) = begin(request);
        loop {
            match action {
                HandlerAction::WaitFor(plan) => return (state, plan),
                HandlerAction::Respond(answer) => panic!("{answer:?}"),
                other => (state, action) = advance(state, self.perform(other)),
            }
        }
    }

    /// Serves a request to its end.
    fn serve(&mut self, request: Request) -> Response {
        let (mut state, mut action) = begin(request);
        loop {
            match action {
                HandlerAction::WaitFor(plan) => {
                    let result = self.wait(plan);
                    (state, action) = advance(state, HandlerEvent::WaitEnded(result));
                }
                HandlerAction::Respond(answer) => {
                    assert_eq!(state, HandlerState::Answered);
                    assert!(!self.locked, "answered with the lock held");
                    return respond(answer);
                }
                other => (state, action) = advance(state, self.perform(other)),
            }
        }
    }
}

fn send(keys: &str) -> Request {
    Request::Send(SendRequest { keys: keys.to_string() })
}

/// A long-poll wait must not hold the session's lock: the send and screen requests
/// served mid-wait are exactly what make the wait complete.
#[test]
fn wait_does_not_block_other_endpoints() {
    let mut shell = Shell::new();
    let (waiting, plan) = shell.serve_up_to_wait(Request::Wait(WaitParams {
        text: Some("WAIT_DONE_77".to_string()),
        timeout_ms: Some(30000),
        ..WaitParams::default()
    }));
    assert_eq!(plan.condition, WaitCondition::Text("WAIT_DONE_77".to_string()));
    assert_eq!(wait_timeout(plan.timeout_ms), Duration::from_secs(30));

    let response = shell.serve(Request::Screen(ScreenParams::default()));
    assert_eq!(response.status, 200, "screen not served during wait");
    let response = shell.serve(send("echo WAIT_DONE_77<CR>"));
    assert_eq!(response.status, 200, "send not served during wait");

    let result = shell.wait(plan);
    let (state, action) = advance(waiting, HandlerEvent::WaitEnded(result));
    assert_eq!(state, HandlerState::Answered);
    let HandlerAction::Respond(answer) = action else { panic!("{action:?}") };
    let response = respond(answer);
    assert_eq!(response.status, 200);
    assert!(response.body.contains(r#""matched":true"#), "{}", response.body);

    // Zero or multiple conditions are usage errors.
    assert_eq!(shell.serve(Request::Wait(WaitParams::default())).status, 400);
    let two = WaitParams {
        text: Some("a".to_string()),
        gone: Some("b".to_string()),
        ..WaitParams::default()
    };
    assert_eq!(shell.serve(Request::Wait(two)).status, 400);

    assert_eq!(shell.serve(send("exit<CR>")).status, 200);
    let response = shell.serve(Request::Status);
    assert!(response.body.contains(r#""alive":false"#), "{}", response.body);
}

/// A server around a session, and its clock.
struct Hosted {
    shell: Shell,
    stop_requested: bool,
    shutting_down: bool,
    accepting: bool,
    clock: Duration,
    state: ServerState,
    action: ServerAction<String>,
}

impl Hosted {
    fn new(shell: Shell, policy: ShutdownPolicy) -> Hosted {
        let (state, action) = begin_server(policy);
        Hosted {
            shell,
            stop_requested: false,
            shutting_down: false,
            accepting: true,
            clock: Duration::ZERO,
            state,
            action,
        }
    }

    /// Performs the next action, if nothing has to happen first.
    fn perform(&mut self) -> Option<ServerEvent<String>> {
        let event = match &self.action {
            ServerAction::Shutdown(ShutdownAction::AwaitExitOrStop) => {
                if !self.shell.alive {
                    ShutdownEvent::Exited
                } else if self.stop_requested {
                    ShutdownEvent::StopRequested
                } else {
                    return None;
                }
            }
            ServerAction::Shutdown(ShutdownAction::ReadStopRequested) => {
                ShutdownEvent::StopFlag(self.stop_requested)
            }
            ServerAction::Shutdown(ShutdownAction::AwaitStop) => {
                if !self.stop_requested {
                    return None;
                }
                ShutdownEvent::StopRequested
            }
            ServerAction::Shutdown(ShutdownAction::Sleep(time)) => {
                self.clock += *time;
                ShutdownEvent::GraceElapsed
            }
            ServerAction::Shutdown(ShutdownAction::SetShuttingDown) => {
                self.shutting_down = true;
                ShutdownEvent::FlagSet
            }
            ServerAction::Drain => {
                assert!(self.shutting_down, "drained before the flag was set");
                self.accepting = false;
                return None;
            }
            other => panic!("{other:?}"),
        };
        Some(ServerEvent::Shutdown(event))
    }

    /// Goes on as far as it goes by itself, but not through a sleep.
    fn settle(&mut self) {
        while !matches!(self.action, ServerAction::Shutdown(ShutdownAction::Sleep(_))) {
            match self.perform() {
                Some(event) => self.happen(event),
                None => return,
            }
        }
    }

    /// Lets the grace pass and goes on from there.
    fn sleep(&mut self) {
        let event = self.perform().unwrap();
        self.happen(event);
        self.settle();
    }

    fn happen(&mut self, event: ServerEvent<String>) {
        (self.state, self.action) = advance_server(self.state, event);
    }

    fn stop(&mut self) -> Response {
        self.stop_requested = true;
        self.shell.serve(Request::Stop { grace: stop_grace() })
    }

    /// What the server ended with.
    fn result(self) -> Result<(), ServerError<String>> {
        match self.action {
            ServerAction::End(end) => server_result(end),
            other => panic!("{other:?}"),
        }
    }
}

/// Without linger the server outlives the child by the exit grace: the final status
/// is readable inside the grace, and the server has ended after it.
#[test]
fn server_ends_after_the_exit_grace_without_linger() {
    let policy = ShutdownPolicy { linger: false, exit_grace: Duration::from_millis(1500) };
    let mut server = Hosted::new(Shell::exited(0), policy);
    server.settle();

    assert!(server.accepting);
    let response = server.shell.serve(Request::Status);
    assert!(response.body.contains(r#""alive":false"#), "{}", response.body);
    assert!(response.body.contains(r#""exit_code":0"#), "{}", response.body);

    server.sleep();
    assert!(!server.accepting);
    server.happen(ServerEvent::Drained);
    assert_eq!(server.state, ServerState::Ended);
    assert_eq!(server.action, ServerAction::End(ServerEnd::Finished));
    assert!(server.clock >= policy.exit_grace, "ended before the grace");
    assert!(server.clock < policy.exit_grace + drain_backstop(), "hit the backstop");
    assert_eq!(server.clock, policy.exit_grace);
    assert_eq!(server.result(), Ok(()));
}

/// With linger the server stays up after the child exits; a stop then ends it after
/// the grace and reports that nothing needed signalling.
#[test]
fn server_lingers_until_stop_with_linger() {
    let policy = ShutdownPolicy { linger: true, exit_grace: Duration::from_millis(300) };
    let mut server = Hosted::new(Shell::exited(0), policy);
    server.settle();
    server.clock = Duration::from_millis(1500);
    server.settle();

    assert!(server.accepting);
    assert_eq!(server.action, ServerAction::Shutdown(ShutdownAction::AwaitStop));
    let response = server.shell.serve(Request::Status);
    assert_eq!(response.status, 200);
    assert!(response.body.contains(r#""alive":false"#), "{}", response.body);
    assert!(response.body.contains(r#""exit_code":0"#), "{}", response.body);

    let response = server.stop();
    assert_eq!(response.status, 200);
    assert!(response.body.contains(r#""signalled":"none""#), "{}", response.body);
    assert!(response.body.contains(r#""exited":true"#), "{}", response.body);

    server.settle();
    assert!(server.accepting);
    server.sleep();
    assert!(!server.accepting);
    assert_eq!(server.clock, Duration::from_millis(1800));
    server.happen(ServerEvent::Drained);
    assert_eq!(server.action, ServerAction::End(ServerEnd::Finished));
    assert_eq!(server.result(), Ok(()));
}

/// A stop on a live child: the child is ended, the response says SIGTERM and carries
/// the exit code, and the server ends after the grace.
#[test]
fn stop_endpoint_ends_the_child_and_then_the_server() {
    let policy = ShutdownPolicy { linger: false, exit_grace: Duration::from_millis(300) };
    let mut server = Hosted::new(Shell::new(), policy);
    server.settle();
    let response = server.shell.serve(Request::Status);
    assert!(response.body.contains(r#""alive":true"#), "{}", response.body);

    let response = server.stop();
    assert_eq!(response.status, 200);
    assert!(response.body.contains(r#""signalled":"SIGTERM""#), "{}", response.body);
    assert!(response.body.contains(r#""exited":true"#), "{}", response.body);
    assert!(response.body.contains(r#""alive":false"#), "{}", response.body);
    assert!(!response.body.contains(r#""exit_code":null"#), "{}", response.body);

    server.settle();
    server.sleep();
    server.happen(ServerEvent::Drained);
    assert_eq!(server.action, ServerAction::End(ServerEnd::Finished));
    assert_eq!(server.result(), Ok(()));
}

/// An open socket must not pin the server past the grace: on shutdown the sender
/// sends its closed frame with the exit code and ends. Nothing is sent on the socket
/// for the child's exit alone.
#[test]
fn ws_receives_closed_on_shutdown_and_the_drain_completes() {
    let policy = ShutdownPolicy { linger: false, exit_grace: Duration::from_millis(1500) };
    let mut server = Hosted::new(Shell::new(), policy);
    server.settle();
    let (mut state, mut action) = begin_sender();
    let connected_at = server.clock;

    // The child exits; the sender still waits.
    server.shell.alive = false;
    server.shell.exit_code = Some(7);
    server.settle();
    assert!(!server.shutting_down);
    assert_eq!(action, SenderAction::Await);

    server.sleep();
    assert!(server.shutting_down);
    let mut closed = None;
    loop {
        let event = match action {
            SenderAction::Await => SenderEvent::ShuttingDown,
            SenderAction::Lock => {
                server.shell.locked = true;
                SenderEvent::Locked
            }
            SenderAction::ReadStatus => SenderEvent::Status { exit_code: server.shell.exit_code },
            SenderAction::Send(frame) => {
                if let WireFrame::Text(text) = encode_frame(frame) {
                    closed = Some(text);
                }
                SenderEvent::Sent
            }
            SenderAction::Unlock => {
                server.shell.locked = false;
                SenderEvent::Unlocked
            }
            SenderAction::Finish => break,
            SenderAction::Ignore => panic!("{state:?}"),
        };
        (state, action) = advance_sender(state, event);
    }
    assert_eq!(state, SenderState::Finished);
    let closed = closed.expect("no closed frame before the socket ended");
    assert!(closed.contains(r#""type":"closed""#), "{closed}");
    assert!(closed.contains(r#""exit_code":7"#), "{closed}");
    assert!(server.clock - connected_at >= Duration::from_millis(1500));

    server.happen(ServerEvent::Drained);
    assert_eq!(server.action, ServerAction::End(ServerEnd::Finished));
    assert!(server.clock - connected_at < Duration::from_millis(1500) + drain_backstop());
    assert_eq!(server.result(), Ok(()));
}

#[test]
fn a_drain_that_does_not_complete_is_abandoned() {
    let policy = ShutdownPolicy { linger: false, exit_grace: Duration::ZERO };
    let mut server = Hosted::new(Shell::exited(1), policy);
    server.happen(ServerEvent::BackstopElapsed);
    assert_eq!(server.action, ServerAction::Ignore);
    let mut server = Hosted::new(Shell::exited(1), policy);
    server.settle();
    server.sleep();
    assert_eq!(server.action, ServerAction::Drain);
    assert_eq!(drain_backstop(), Duration::from_secs(3));
    server.happen(ServerEvent::BackstopElapsed);
    assert_eq!(server.state, ServerState::Ended);
    assert_eq!(server.action, ServerAction::End(ServerEnd::Abandoned));
    server.happen(ServerEvent::ServeFailed("reset".to_string()));
    assert_eq!(server.state, ServerState::Ended);
    assert_eq!(server.action, ServerAction::Ignore);
}

#[test]
fn serving_that_fails_ends_the_server() {
    let policy = ShutdownPolicy { linger: true, exit_grace: Duration::ZERO };
    let mut server = Hosted::new(Shell::new(), policy);
    server.happen(ServerEvent::ServeFailed("reset".to_string()));
    assert_eq!(server.state, ServerState::Ended);
    assert_eq!(server.action, ServerAction::End(ServerEnd::Failed("reset".to_string())));
}

#[test]
fn a_failure_keeps_its_error_and_is_named() {
    let failure = server_result(ServerEnd::Failed("reset".to_string())).unwrap_err();
    assert_eq!(failure.error, "reset");
    assert_eq!(failure.context, "HTTP server error");
    assert_eq!(server_result::<String>(ServerEnd::Finished), Ok(()));
    assert_eq!(server_result::<String>(ServerEnd::Abandoned), Ok(()));
}

/// Nothing but a failure ends a server that has not been told to drain, and one that
/// ends well has set its flag.
#[test]
fn a_server_serves_until_it_is_told_to_drain() {
    let policy = ShutdownPolicy { linger: true, exit_grace: Duration::from_secs(1) };
    let mut server = Hosted::new(Shell::exited(0), policy);
    server.settle();
    for event in [
        ServerEvent::BackstopElapsed,
        ServerEvent::Drained,
        ServerEvent::Shutdown(ShutdownEvent::Exited),
        ServerEvent::Shutdown(ShutdownEvent::GraceElapsed),
        ServerEvent::Shutdown(ShutdownEvent::FlagSet),
        ServerEvent::BackstopElapsed,
    ] {
        server.happen(event);
        assert!(matches!(server.state, ServerState::Serving(_)));
        assert_eq!(server.action, ServerAction::Ignore);
    }
    assert!(!server.shutting_down);
    server.happen(ServerEvent::Shutdown(ShutdownEvent::StopRequested));
    server.settle();
    server.sleep();
    assert_eq!(server.state, ServerState::Draining);
    assert!(server.shutting_down);
    server.happen(ServerEvent::Drained);
    assert_eq!(server.action, ServerAction::End(ServerEnd::Finished));
    assert_eq!(server.result(), Ok(()));
}

#[test]
fn policy_from_lifecycle() {
    let policy = ShutdownPolicy::from_lifecycle(&Lifecycle { timeout: Some(9), linger: true });
    assert_eq!(policy, ShutdownPolicy { linger: true, exit_grace: Duration::from_secs(9) });
    let policy = ShutdownPolicy::from_lifecycle(&Lifecycle { timeout: None, linger: false });
    assert_eq!(policy, ShutdownPolicy { linger: false, exit_grace: Duration::from_secs(5) });
    assert_eq!(policy.exit_grace, default_exit_grace());
    let policy =
        ShutdownPolicy::from_lifecycle(&Lifecycle { timeout: Some(u64::MAX), linger: false });
    assert_eq!(policy.exit_grace, Duration::from_secs(u64::MAX));
    let policy = ShutdownPolicy::from_lifecycle(&Lifecycle { timeout: Some(0), linger: false });
    assert_eq!(policy.exit_grace, Duration::ZERO);
}

#[test]
fn a_stop_before_the_exit_ends_a_lingering_server() {
    let policy = ShutdownPolicy { linger: true, exit_grace: Duration::from_millis(300) };
    let (state, action) = begin_shutdown(policy);
    assert_eq!(action, ShutdownAction::AwaitExitOrStop);
    let (state, action) = advance_shutdown(state, ShutdownEvent::StopRequested);
    assert_eq!(action, ShutdownAction::ReadStopRequested);
    let (state, action) = advance_shutdown(state, ShutdownEvent::StopFlag(true));
    assert_eq!(action, ShutdownAction::Sleep(Duration::from_millis(300)));
    let (state, action) = advance_shutdown(state, ShutdownEvent::GraceElapsed);
    assert_eq!(action, ShutdownAction::SetShuttingDown);
    let (state, action) = advance_shutdown(state, ShutdownEvent::FlagSet);
    assert_eq!(action, ShutdownAction::Resolve);
    assert_eq!(state.phase, ShutdownPhase::Resolved);
    assert_eq!(advance_shutdown(state, ShutdownEvent::Exited).1, ShutdownAction::Ignore);
}

#[test]
fn a_lingering_server_is_not_ended_by_the_exit_alone() {
    let policy = ShutdownPolicy { linger: true, exit_grace: Duration::ZERO };
    let (mut state, _) = begin_shutdown(policy);
    for event in [
        ShutdownEvent::Exited,
        ShutdownEvent::StopFlag(false),
        ShutdownEvent::Exited,
        ShutdownEvent::GraceElapsed,
        ShutdownEvent::FlagSet,
        ShutdownEvent::StopFlag(false),
    ] {
        state = advance_shutdown(state, event).0;
    }
    assert_eq!(state.phase, ShutdownPhase::AwaitingStop);
}

#[test]
fn watching_a_flag() {
    let (state, action) = watch();
    assert_eq!(action, WatchAction::Read);
    let (state, action) = advance_watch(state, WatchEvent::Value(false));
    assert_eq!(action, WatchAction::AwaitChange);
    let (state, action) = advance_watch(state, WatchEvent::Changed);
    assert_eq!(action, WatchAction::Read);
    assert_eq!(
        advance_watch(state, WatchEvent::Value(true)),
        (WatchState::Resolved, WatchAction::Resolve)
    );
    let (state, _) = advance_watch(state, WatchEvent::Value(false));
    assert_eq!(
        advance_watch(state, WatchEvent::SenderGone),
        (WatchState::Resolved, WatchAction::Resolve)
    );
    assert_eq!(advance_watch(state, WatchEvent::Value(true)), (state, WatchAction::Ignore));
}

#[test]
fn screen_requests_ask_for_their_format() {
    let mut shell = Shell::new();
    assert_eq!(shell.serve(send("echo hi<CR>")).status, 200);
    let asked = |format: &str| {
        let (state, _) = begin(Request::Screen(ScreenParams {
            rows: Some("2:4".to_string()),
            format: Some(format.to_string()),
            ..ScreenParams::default()
        }));
        advance(state, HandlerEvent::Locked).1
    };
    let opts = || ScreenOpts {
        rows: Some(2..4),
        cols: None,
        cursor_char: None,
        include_empty: false,
    };
    assert_eq!(asked("text"), HandlerAction::Call(SessionCall::Screen(opts())));
    assert_eq!(asked("styled"), HandlerAction::Call(SessionCall::ScreenStyled(opts())));
    assert_eq!(asked("html"), HandlerAction::Call(SessionCall::ScreenHtml(opts())));

    let html = ScreenParams { format: Some("html".to_string()), ..ScreenParams::default() };
    let response = shell.serve(Request::Screen(html));
    assert_eq!((response.content_type, response.body.as_str()), ("text/html", "<pre>hi</pre>"));
    let styled = ScreenParams { format: Some("styled".to_string()), ..ScreenParams::default() };
    assert_eq!(shell.serve(Request::Screen(styled)).body, r#"["hi"]"#);
    assert_eq!(shell.serve(Request::Cursor).body, r#"{"col":3,"row":1}"#);
}

#[test]
fn scrollback_defaults_to_a_hundred_lines() {
    let mut shell = Shell::new();
    let (state, _) = begin(Request::Scrollback(ScrollbackParams::default()));
    let (_, action) = advance(state, HandlerEvent::Locked);
    assert_eq!(action, HandlerAction::Call(SessionCall::Scrollback(100)));
    let response = shell.serve(Request::Scrollback(ScrollbackParams { lines: Some(2) }));
    assert_eq!(response.body, r#"{"count":2,"lines":["first","second"]}"#);
}

#[test]
fn keys_that_are_refused_are_a_bad_request() {
    let response = Shell::new().serve(send("<nonsense>"));
    assert_eq!((response.status, response.body.as_str()), (400, r#"{"error":"unknown key"}"#));
}

#[test]
fn resizing() {
    let mut shell = Shell::new();
    let resize = |cols, rows| Request::Resize(ResizeRequest { cols, rows });
    let response = shell.serve(resize(120, 40));
    assert_eq!((response.status, response.body.as_str()), (200, r#"{"ok":true}"#));
    assert!(shell.serve(Request::Status).body.contains(r#""size":[120,40]"#));
    let response = shell.serve(resize(0, 40));
    assert_eq!((response.status, response.body.as_str()), (500, r#"{"error":"no such size"}"#));
}

#[test]
fn a_wait_that_times_out_is_served_and_one_that_cannot_run_is_refused() {
    let mut shell = Shell::new();
    let absent = WaitParams { text: Some("absent".to_string()), ..WaitParams::default() };
    let response = shell.serve(Request::Wait(absent));
    assert_eq!((response.status, response.body.as_str()), (200, r#"{"matched":false}"#));
    let broken = WaitParams { regex: Some("(".to_string()), ..WaitParams::default() };
    let response = shell.serve(Request::Wait(broken));
    assert_eq!(
        (response.status, response.body.as_str()),
        (400, r#"{"error":"no such pattern: ("}"#)
    );
}

#[test]
fn events_that_are_not_due_change_nothing() {
    let (state, _) = begin(Request::Cursor);
    let (state, action) = advance(state, HandlerEvent::Unlocked);
    assert_eq!(action, HandlerAction::Ignore);
    let (state, action) = advance(state, HandlerEvent::Locked);
    assert_eq!(action, HandlerAction::Call(SessionCall::Cursor));
    let (state, action) = advance(state, HandlerEvent::Screen("{}".to_string()));
    assert_eq!(action, HandlerAction::Ignore);
    let (state, action) = advance(state, HandlerEvent::Cursor { row: 1, col: 1 });
    assert_eq!(action, HandlerAction::Unlock);
    let (state, _) = advance(state, HandlerEvent::Unlocked);
    assert_eq!(advance(state, HandlerEvent::Locked), (HandlerState::Answered, HandlerAction::Ignore));
}

#[test]
fn requests_take_a_known_number_of_events() {
    let count = |request: Request| {
        let mut shell = Shell::new();
        let mut events = 0;
        let (mut state, mut action) = begin(request);
        loop {
            let event = match action {
                HandlerAction::Respond(_) => return events,
                HandlerAction::WaitFor(plan) => HandlerEvent::WaitEnded(shell.wait(plan)),
                other => shell.perform(other),
            };
            events += 1;
            (state, action) = advance(state, event);
        }
    };
    let wait = WaitParams { stable_ms: Some(1), ..WaitParams::default() };
    assert_eq!(count(Request::Cursor), 3);
    assert_eq!(count(Request::Screen(ScreenParams::default())), 3);
    assert_eq!(count(send("x<CR>")), 3);
    assert_eq!(count(Request::Wait(wait)), 4);
    assert_eq!(count(Request::Stop { grace: stop_grace() }), 7);
    assert_eq!(count(Request::Wait(WaitParams::default())), 0);
}

/// Events that are not due leave a stop running, with the lock free and the grace
/// unchanged.
#[test]
fn a_stop_runs_once_and_without_the_lock() {
    let mut shell = Shell::new();
    let (mut state, mut action) = begin(Request::Stop { grace: stop_grace() });
    let mut stops = Vec::new();
    loop {
        if let HandlerAction::Respond(_) = action {
            break;
        }
        if let HandlerAction::Stop(grace) = action {
            assert!(!shell.locked);
            stops.push(grace);
            for event in [HandlerEvent::Locked, HandlerEvent::Unlocked, HandlerEvent::HandleTaken] {
                let (next, ignored) = advance(state, event);
                assert_eq!(next, HandlerState::Stopping);
                assert_eq!(ignored, HandlerAction::Ignore);
                state = next;
            }
        }
        let event = shell.perform(action);
        (state, action) = advance(state, event);
    }
    assert_eq!(stops, vec![stop_grace()]);
    assert_eq!(state, HandlerState::Answered);
}

/// The flag is set only once the grace has passed, and the grace is slept once.
#[test]
fn a_shutdown_sleeps_once_and_for_the_grace() {
    for linger in [false, true] {
        let policy = ShutdownPolicy { linger, exit_grace: Duration::from_millis(700) };
        let (mut state, mut action) = begin_shutdown(policy);
        let mut slept = Vec::new();
        for event in [
            ShutdownEvent::GraceElapsed,
            ShutdownEvent::FlagSet,
            ShutdownEvent::StopRequested,
            ShutdownEvent::StopFlag(true),
            ShutdownEvent::Exited,
            ShutdownEvent::StopFlag(true),
            ShutdownEvent::GraceElapsed,
            ShutdownEvent::GraceElapsed,
            ShutdownEvent::FlagSet,
            ShutdownEvent::StopRequested,
        ] {
            assert!(action != ShutdownAction::SetShuttingDown || slept.len() == 1);
            (state, action) = advance_shutdown(state, event);
            if let ShutdownAction::Sleep(time) = action {
                slept.push(time);
            }
        }
        assert_eq!(slept, vec![Duration::from_millis(700)]);
        assert_eq!(state.phase, ShutdownPhase::Resolved);
    }
}
