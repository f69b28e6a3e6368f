//! Answers and the documents that carry them; where endpoints are found.

use ptyctl::handler::{Request, ResizeRequest, ScrollbackParams, SendRequest};
use ptyctl::reply::{
    answer_body, answer_status, respond, Answer, Body, SessionStatus, StopOutcome,
};
use ptyctl::routes::{endpoints, Endpoint, Method};
use ptyctl::screen::ScreenParams;
use ptyctl::wait::WaitParams;
use serde_json::Value;
use std::time::Duration;

fn document(answer: Answer) -> Value {
    match answer_body(answer) {
        Body::Document(v) => v,
        other => panic!("no document: {other:?}"),
    }
}

fn parse(text: &str) -> Value {
    serde_json::from_str(text).unwrap()
}

#[test]
fn cursor_document_holds_row_and_column() {
    let answer = Answer::Cursor { row: 3, col: 7 };
    assert_eq!(answer_status(&answer), 200);
    assert_eq!(document(answer), parse(r#"{"row":3,"col":7}"#));
}

#[test]
fn cursor_response_is_compact_json() {
    let response = respond(Answer::Cursor { row: 3, col: 7 });
    assert_eq!(response.status, 200);
    assert_eq!(response.content_type, "application/json");
    assert_eq!(response.body, r#"{"col":7,"row":3}"#);
}

#[test]
fn status_document_holds_everything() {
    let status = SessionStatus {
        alive: false,
        pid: Some(4321),
        exit_code: Some(-9),
        size: (80, 24),
        modes: parse(r#"{"bracketed_paste":true}"#),
        scrollback_lines: 12,
    };
    let expected = parse(
        r#"{"alive":false,"pid":4321,"exit_code":-9,"size":[80,24],
            "modes":{"bracketed_paste":true},"scrollback_lines":12}"#,
    );
    assert_eq!(document(Answer::Status(status)), expected);
}

#[test]
fn status_document_of_a_running_child() {
    let status = SessionStatus {
        alive: true,
        pid: None,
        exit_code: None,
        size: (1, 65535),
        modes: Value::Null,
        scrollback_lines: 0,
    };
    let expected = parse(
        r#"{"alive":true,"pid":null,"exit_code":null,"size":[1,65535],"modes":null,
            "scrollback_lines":0}"#,
    );
    assert_eq!(document(Answer::Status(status)), expected);
}

#[test]
fn scrollback_document_counts_its_lines() {
    let lines = vec!["one".to_string(), "".to_string(), "\"three\"\n".to_string()];
    let expected = parse(r#"{"count":3,"lines":["one","","\"three\"\n"]}"#);
    assert_eq!(document(Answer::Scrollback(lines)), expected);
    assert_eq!(document(Answer::Scrollback(Vec::new())), parse(r#"{"count":0,"lines":[]}"#));
}

#[test]
fn done_document() {
    let response = respond(Answer::Done);
    assert_eq!((response.status, response.body.as_str()), (200, r#"{"ok":true}"#));
}

#[test]
fn stop_document() {
    let outcome = StopOutcome { signalled: "SIGTERM".to_string(), exited: true };
    let answer = Answer::Stopped { outcome, alive: false, exit_code: Some(143) };
    assert_eq!(answer_status(&answer), 200);
    let expected = parse(
        r#"{"ok":true,"signalled":"SIGTERM","exited":true,"alive":false,"exit_code":143}"#,
    );
    assert_eq!(document(answer), expected);
}

#[test]
fn encoded_answers_are_passed_on() {
    let text = r#"{"matched":false,"a":1}"#.to_string();
    let waited = respond(Answer::Waited(text.clone()));
    assert_eq!((waited.status, waited.content_type), (200, "application/json"));
    assert_eq!(waited.body, text);
    let screen = respond(Answer::Screen(text.clone()));
    assert_eq!((screen.status, screen.content_type), (200, "application/json"));
    assert_eq!(screen.body, text);
}

#[test]
fn html_is_answered_as_html() {
    let response = respond(Answer::ScreenHtml("<pre>$</pre>".to_string()));
    assert_eq!((response.status, response.content_type), (200, "text/html"));
    assert_eq!(response.body, "<pre>$</pre>");
}

#[test]
fn wait_usage_error() {
    let response = respond(Answer::WaitUsage);
    assert_eq!(response.status, 400);
    assert_eq!(
        response.body,
        r#"{"error":"exactly one of text, regex, gone, stable_ms is required"}"#
    );
}

#[test]
fn refusals_and_failures() {
    let refused = respond(Answer::Refused("bad \"key\"".to_string()));
    assert_eq!((refused.status, refused.content_type), (400, "application/json"));
    assert_eq!(refused.body, r#"{"error":"bad \"key\""}"#);
    let failed = respond(Answer::Failed("no tty".to_string()));
    assert_eq!(failed.status, 500);
    assert_eq!(failed.body, r#"{"error":"no tty"}"#);
}

#[test]
fn every_endpoint_has_its_place() {
    let table: Vec<(Method, &str)> =
        endpoints().iter().map(|endpoint| (endpoint.method(), endpoint.path())).collect();
    assert_eq!(
        table,
        vec![
            (Method::Get, "/query/screen"),
            (Method::Get, "/query/cursor"),
            (Method::Get, "/query/status"),
            (Method::Get, "/query/scrollback"),
            (Method::Get, "/wait"),
            (Method::Post, "/control/send"),
            (Method::Post, "/control/resize"),
            (Method::Post, "/control/stop"),
            (Method::Get, "/ws"),
        ]
    );
    for (method, path) in table {
        assert_eq!(method == Method::Post, path.starts_with("/control/"));
    }
}

#[test]
fn paths_are_distinct() {
    let all = endpoints();
    for (i, a) in all.iter().enumerate() {
        for b in &all[i + 1..] {
            assert_ne!(a, b);
            assert_ne!(a.path(), b.path());
        }
    }
    assert!(all.contains(&Endpoint::Socket));
}

#[test]
fn every_request_has_its_endpoint() {
    for (request, path) in [
        (Request::Screen(ScreenParams::default()), "/query/screen"),
        (Request::Cursor, "/query/cursor"),
        (Request::Status, "/query/status"),
        (Request::Scrollback(ScrollbackParams::default()), "/query/scrollback"),
        (Request::Wait(WaitParams::default()), "/wait"),
        (Request::Send(SendRequest { keys: "x".to_string() }), "/control/send"),
        (Request::Resize(ResizeRequest { cols: 80, rows: 24 }), "/control/resize"),
        (Request::Stop { grace: Duration::from_secs(2) }, "/control/stop"),
    ] {
        assert_eq!(request.endpoint().path(), path);
    }
}
