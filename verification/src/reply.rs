//! Answers to requests: their status, and the documents that carry them.

use crate::json;
use crate::json::Json;
use vstd::prelude::*;

verus! {

/// The request was served.
pub const STATUS_OK: u16 = 200;

/// The request asked for something that cannot be done.
pub const STATUS_BAD_REQUEST: u16 = 400;

/// The session failed to do what it was asked for.
pub const STATUS_INTERNAL_SERVER_ERROR: u16 = 500;

/// The state of a session.
#[derive(Debug, PartialEq)]
pub struct SessionStatus {
    /// Whether the child still runs.
    pub alive: bool,
    /// The process id of the child.
    pub pid: Option<u32>,
    /// The exit code of the child, once it has one.
    pub exit_code: Option<i32>,
    /// The size of the terminal: columns, rows.
    pub size: (u16, u16),
    /// The modes of the terminal, as a document.
    pub modes: serde_json::Value,
    /// How many lines are kept above the screen.
    pub scrollback_lines: usize,
}

/// What came of stopping the child.
#[derive(Debug, PartialEq)]
pub struct StopOutcome {
    /// The last signal that was sent, or "none".
    pub signalled: String,
    /// Whether the child has exited.
    pub exited: bool,
}

/// What a request is answered with.
#[derive(Debug, PartialEq)]
pub enum Answer {
    /// The screen, plain or styled, as an encoded document.
    Screen(String),
    /// The screen as a page.
    ScreenHtml(String),
    /// Where the cursor is.
    Cursor { row: usize, col: usize },
    /// The state of the session.
    Status(SessionStatus),
    /// Lines that have left the screen.
    Scrollback(Vec<String>),
    /// What was asked for has been done.
    Done,
    /// What came of a wait, as an encoded document. Running into the timeout is
    /// such an outcome, and no error.
    Waited(String),
    /// What came of a stop, and the state of the child after it.
    Stopped { outcome: StopOutcome, alive: bool, exit_code: Option<i32> },
    /// A wait that does not set exactly one condition.
    WaitUsage,
    /// The session refused what it was asked for.
    Refused(String),
    /// The session failed to do what it was asked for.
    Failed(String),
}

/// The body of a response.
#[derive(Debug, PartialEq)]
pub enum Body {
    /// A document.
    Document(serde_json::Value),
    /// A document that is encoded already.
    Encoded(String),
    /// A page.
    Html(String),
}

/// What a body says.
pub enum BodyView {
    Document(Json),
    Encoded(Seq<char>),
    Html(Seq<char>),
}

impl View for Body {
    type V = BodyView;

    open spec fn view(&self) -> BodyView {
        match *self {
            Body::Document(v) => BodyView::Document(json::value_content(v)),
            Body::Encoded(s) => BodyView::Encoded(s@),
            Body::Html(s) => BodyView::Html(s@),
        }
    }
}

impl BodyView {
    /// The text of the body.
    pub open spec fn text(self) -> Seq<char> {
        match self {
            BodyView::Document(j) => json::json_text(j),
            BodyView::Encoded(s) => s,
            BodyView::Html(s) => s,
        }
    }

    /// The media type of the body.
    pub open spec fn content_type(self) -> Seq<char> {
        match self {
            BodyView::Html(_) => "text/html"@,
            _ => "application/json"@,
        }
    }

    /// The member of the body's document under a key, if it has one.
    pub open spec fn member(self, key: Seq<char>) -> Option<Json> {
        match self {
            BodyView::Document(Json::Object(members)) => if members.contains_key(key) {
                Some(members[key])
            } else {
                None
            },
            _ => None,
        }
    }
}

/// An HTTP response.
#[derive(Debug, PartialEq)]
pub struct Response {
    pub status: u16,
    pub content_type: &'static str,
    pub body: String,
}

/// A document with one member.
pub open spec fn one_member(key: Seq<char>, value: Json) -> BodyView {
    BodyView::Document(Json::Object(map![key => value]))
}

/// The document for a row of lines.
pub open spec fn lines_json(lines: Seq<String>) -> Json {
    Json::Array(Seq::new(lines.len(), |i: int| Json::Text(lines[i]@)))
}

impl Answer {
    /// The status of the response. A request is refused for what it asks or
    /// failed by the session; all else is success.
    pub open spec fn status(self) -> u16 {
        match self {
            Answer::WaitUsage => STATUS_BAD_REQUEST,
            Answer::Refused(_) => STATUS_BAD_REQUEST,
            Answer::Failed(_) => STATUS_INTERNAL_SERVER_ERROR,
            _ => STATUS_OK,
        }
    }

    /// What the body of the response says.
    pub open spec fn content(self) -> BodyView {
        match self {
            Answer::Screen(text) => BodyView::Encoded(text@),
            Answer::ScreenHtml(html) => BodyView::Html(html@),
            Answer::Cursor { row, col } => BodyView::Document(
                Json::Object(map!["row"@ => Json::Int(row as int), "col"@ => Json::Int(col as int)]),
            ),
            Answer::Status(status) => BodyView::Document(
                Json::Object(
                    map![
                        "alive"@ => Json::Bool(status.alive),
                        "pid"@ => match status.pid {
                            Some(pid) => Json::Int(pid as int),
                            None => Json::Null,
                        },
                        "exit_code"@ => json::exit_code_json(status.exit_code),
                        "size"@ => Json::Array(
                            seq![
                                Json::Int(status.size.0 as int),
                                Json::Int(status.size.1 as int),
                            ],
                        ),
                        "modes"@ => json::value_content(status.modes),
                        "scrollback_lines"@ => Json::Int(status.scrollback_lines as int),
                    ],
                ),
            ),
            Answer::Scrollback(lines) => BodyView::Document(
                Json::Object(
                    map![
                        "count"@ => Json::Int(lines@.len() as int),
                        "lines"@ => lines_json(lines@),
                    ],
                ),
            ),
            Answer::Done => one_member("ok"@, Json::Bool(true)),
            Answer::Waited(text) => BodyView::Encoded(text@),
            Answer::Stopped { outcome, alive, exit_code } => BodyView::Document(
                Json::Object(
                    map![
                        "ok"@ => Json::Bool(true),
                        "signalled"@ => Json::Text(outcome.signalled@),
                        "exited"@ => Json::Bool(outcome.exited),
                        "alive"@ => Json::Bool(alive),
                        "exit_code"@ => json::exit_code_json(exit_code),
                    ],
                ),
            ),
            Answer::WaitUsage => one_member(
                "error"@,
                Json::Text("exactly one of text, regex, gone, stable_ms is required"@),
            ),
            Answer::Refused(message) => one_member("error"@, Json::Text(message@)),
            Answer::Failed(message) => one_member("error"@, Json::Text(message@)),
        }
    }
}

fn error_document(message: String) -> (v: serde_json::Value)
    ensures
        json::value_content(v) == Json::Object(map!["error"@ => Json::Text(message@)]),
{
    let mut members = json::new_members();
    json::put(&mut members, "error", json::text_value(message));
    json::object_value(members)
}

fn cursor_document(row: usize, col: usize) -> (v: serde_json::Value)
    ensures
        BodyView::Document(json::value_content(v)) == (Answer::Cursor { row, col }).content(),
{
    let mut members = json::new_members();
    json::put(&mut members, "row", json::uint_value(row as u64));
    json::put(&mut members, "col", json::uint_value(col as u64));
    json::object_value(members)
}

fn status_document(status: SessionStatus) -> (v: serde_json::Value)
    ensures
        BodyView::Document(json::value_content(v)) == Answer::Status(status).content(),
{
    let pid = match status.pid {
        Some(pid) => json::uint_value(pid as u64),
        None => json::null_value(),
    };
    let mut size: Vec<serde_json::Value> = Vec::new();
    size.push(json::uint_value(status.size.0 as u64));
    size.push(json::uint_value(status.size.1 as u64));
    assert(json::contents(size@) == seq![
        Json::Int(status.size.0 as int),
        Json::Int(status.size.1 as int),
    ]);
    let mut members = json::new_members();
    json::put(&mut members, "alive", json::bool_value(status.alive));
    json::put(&mut members, "pid", pid);
    json::put(&mut members, "exit_code", json::exit_code_value(status.exit_code));
    json::put(&mut members, "size", json::array_value(size));
    json::put(&mut members, "modes", status.modes);
    json::put(
        &mut members,
        "scrollback_lines",
        json::uint_value(status.scrollback_lines as u64),
    );
    json::object_value(members)
}

fn scrollback_document(lines: Vec<String>) -> (v: serde_json::Value)
    ensures
        BodyView::Document(json::value_content(v)) == Answer::Scrollback(lines).content(),
{
    let count: usize = lines.len();
    let mut items: Vec<serde_json::Value> = Vec::new();
    let mut i: usize = 0;
    while i < lines.len()
        invariant
            i <= lines@.len(),
            items@.len() == i,
            forall|j: int|
                0 <= j < i ==> json::value_content(#[trigger] items@[j]) == Json::Text(lines@[j]@),
        decreases lines@.len() - i,
    {
        items.push(json::text_value(lines[i].clone()));
        i = i + 1;
    }
    assert(Json::Array(json::contents(items@)) == lines_json(lines@)) by {
        assert(json::contents(items@) =~= Seq::new(
            lines@.len(),
            |j: int| Json::Text(lines@[j]@),
        ));
    }
    let mut members = json::new_members();
    json::put(&mut members, "count", json::uint_value(count as u64));
    json::put(&mut members, "lines", json::array_value(items));
    json::object_value(members)
}

fn done_document() -> (v: serde_json::Value)
    ensures
        BodyView::Document(json::value_content(v)) == Answer::Done.content(),
{
    let mut members = json::new_members();
    json::put(&mut members, "ok", json::bool_value(true));
    json::object_value(members)
}

fn stopped_document(outcome: StopOutcome, alive: bool, exit_code: Option<i32>) -> (v:
    serde_json::Value)
    ensures
        BodyView::Document(json::value_content(v)) == (Answer::Stopped {
            outcome,
            alive,
            exit_code,
        }).content(),
{
    let mut members = json::new_members();
    json::put(&mut members, "ok", json::bool_value(true));
    json::put(&mut members, "signalled", json::text_value(outcome.signalled));
    json::put(&mut members, "exited", json::bool_value(outcome.exited));
    json::put(&mut members, "alive", json::bool_value(alive));
    json::put(&mut members, "exit_code", json::exit_code_value(exit_code));
    json::object_value(members)
}

/// The body of the response for an answer.
pub fn answer_body(answer: Answer) -> (body: Body)
    ensures
        body@ == answer.content(),
{
    match answer {
        Answer::Screen(text) => Body::Encoded(text),
        Answer::ScreenHtml(html) => Body::Html(html),
        Answer::Cursor { row, col } => Body::Document(cursor_document(row, col)),
        Answer::Status(status) => Body::Document(status_document(status)),
        Answer::Scrollback(lines) => Body::Document(scrollback_document(lines)),
        Answer::Done => Body::Document(done_document()),
        Answer::Waited(text) => Body::Encoded(text),
        Answer::Stopped { outcome, alive, exit_code } => Body::Document(
            stopped_document(outcome, alive, exit_code),
        ),
        Answer::WaitUsage => Body::Document(
            error_document("exactly one of text, regex, gone, stable_ms is required".to_string()),
        ),
        Answer::Refused(message) => Body::Document(error_document(message)),
        Answer::Failed(message) => Body::Document(error_document(message)),
    }
}

/// The status of the response for an answer.
pub fn answer_status(answer: &Answer) -> (status: u16)
    ensures
        status == answer.status(),
{
    match answer {
        Answer::WaitUsage => STATUS_BAD_REQUEST,
        Answer::Refused(_) => STATUS_BAD_REQUEST,
        Answer::Failed(_) => STATUS_INTERNAL_SERVER_ERROR,
        _ => STATUS_OK,
    }
}

/// The response for an answer.
pub fn respond(answer: Answer) -> (response: Response)
    ensures
        response.status == answer.status(),
        response.content_type@ == answer.content().content_type(),
        response.body@ == answer.content().text(),
{
    let status: u16 = answer_status(&answer);
    match answer_body(answer) {
        Body::Document(v) => Response {
            status,
            content_type: "application/json",
            body: json::value_text(&v),
        },
        Body::Encoded(text) => Response { status, content_type: "application/json", body: text },
        Body::Html(html) => Response { status, content_type: "text/html", body: html },
    }
}

/// No member of a status document hides another: each says what it is named for.
pub proof fn law_status_members(status: SessionStatus)
    ensures
        ({
            let content = Answer::Status(status).content();
            &&& content.member("alive"@) == Some(Json::Bool(status.alive))
            &&& content.member("pid"@) == Some(
                match status.pid {
                    Some(pid) => Json::Int(pid as int),
                    None => Json::Null,
                },
            )
            &&& content.member("exit_code"@) == Some(json::exit_code_json(status.exit_code))
            &&& content.member("size"@) == Some(
                Json::Array(
                    seq![Json::Int(status.size.0 as int), Json::Int(status.size.1 as int)],
                ),
            )
            &&& content.member("modes"@) == Some(json::value_content(status.modes))
            &&& content.member("scrollback_lines"@) == Some(
                Json::Int(status.scrollback_lines as int),
            )
        }),
{
    reveal_strlit("alive");
    reveal_strlit("pid");
    reveal_strlit("exit_code");
    reveal_strlit("size");
    reveal_strlit("modes");
    reveal_strlit("scrollback_lines");
    assert("alive"@[0] != "modes"@[0]);
    assert("alive"@.len() == 5);
    assert("pid"@.len() == 3);
    assert("exit_code"@.len() == 9);
    assert("size"@.len() == 4);
    assert("modes"@.len() == 5);
    assert("scrollback_lines"@.len() == 16);
}

/// No member of a stop document hides another: each says what it is named for.
pub proof fn law_stop_members(outcome: StopOutcome, alive: bool, exit_code: Option<i32>)
    ensures
        ({
            let content = (Answer::Stopped { outcome, alive, exit_code }).content();
            &&& content.member("ok"@) == Some(Json::Bool(true))
            &&& content.member("signalled"@) == Some(Json::Text(outcome.signalled@))
            &&& content.member("exited"@) == Some(Json::Bool(outcome.exited))
            &&& content.member("alive"@) == Some(Json::Bool(alive))
            &&& content.member("exit_code"@) == Some(json::exit_code_json(exit_code))
        }),
{
    reveal_strlit("ok");
    reveal_strlit("signalled");
    reveal_strlit("exited");
    reveal_strlit("alive");
    reveal_strlit("exit_code");
    assert("signalled"@[0] != "exit_code"@[0]);
    assert("ok"@.len() == 2);
    assert("signalled"@.len() == 9);
    assert("exited"@.len() == 6);
    assert("alive"@.len() == 5);
    assert("exit_code"@.len() == 9);
}

/// No member of a cursor or scrollback document hides the other.
pub proof fn law_pair_members(row: usize, col: usize, lines: Vec<String>)
    ensures
        ({
            let content = (Answer::Cursor { row, col }).content();
            &&& content.member("row"@) == Some(Json::Int(row as int))
            &&& content.member("col"@) == Some(Json::Int(col as int))
        }),
        ({
            let content = Answer::Scrollback(lines).content();
            &&& content.member("count"@) == Some(Json::Int(lines@.len() as int))
            &&& content.member("lines"@) == Some(lines_json(lines@))
        }),
{
    reveal_strlit("row");
    reveal_strlit("col");
    reveal_strlit("count");
    reveal_strlit("lines");
    assert("row"@[0] != "col"@[0]);
    assert("count"@[0] != "lines"@[0]);
}

/// The body is a document with these members and no others.
pub open spec fn has_members(body: BodyView, keys: Set<Seq<char>>) -> bool {
    body matches BodyView::Document(Json::Object(members)) && members.dom() == keys
}

/// A process exit code is said as a number, and as `null` while there is none.
pub open spec fn says_exit_code(said: Option<Json>, exit_code: Option<i32>) -> bool {
    match exit_code {
        Some(code) => said == Some(Json::Int(code as int)),
        None => said == Some(Json::Null),
    }
}

/// The lines are said one by one, in order.
pub open spec fn says_lines(said: Option<Json>, lines: Seq<String>) -> bool {
    &&& said matches Some(Json::Array(items))
    &&& items.len() == lines.len()
    &&& forall|i: int| 0 <= i < lines.len() ==> #[trigger] items[i] == Json::Text(lines[i]@)
}

/// An answer says what it carries, all of it and nothing else: a screen, a page and the
/// outcome of a wait are handed out as they are, and every other answer is a document
/// whose members say what the session gave, each under its name.
pub proof fn law_answers_say_what_they_carry(answer: Answer)
    ensures
        ({
            let said = answer.content();
            match answer {
                Answer::Screen(text) => said == BodyView::Encoded(text@),
                Answer::ScreenHtml(html) => said == BodyView::Html(html@),
                Answer::Waited(text) => said == BodyView::Encoded(text@),
                Answer::Cursor { row, col } => {
                    &&& has_members(said, set!["row"@, "col"@])
                    &&& said.member("row"@) == Some(Json::Int(row as int))
                    &&& said.member("col"@) == Some(Json::Int(col as int))
                },
                Answer::Status(status) => {
                    &&& has_members(
                        said,
                        set!["alive"@, "pid"@, "exit_code"@, "size"@, "modes"@, "scrollback_lines"@],
                    )
                    &&& said.member("alive"@) == Some(Json::Bool(status.alive))
                    &&& status.pid matches Some(pid) ==> said.member("pid"@) == Some(
                        Json::Int(pid as int),
                    )
                    &&& status.pid is None ==> said.member("pid"@) == Some(Json::Null)
                    &&& says_exit_code(said.member("exit_code"@), status.exit_code)
                    &&& said.member("size"@) == Some(
                        Json::Array(
                            seq![Json::Int(status.size.0 as int), Json::Int(status.size.1 as int)],
                        ),
                    )
                    &&& said.member("modes"@) == Some(json::value_content(status.modes))
                    &&& said.member("scrollback_lines"@) == Some(
                        Json::Int(status.scrollback_lines as int),
                    )
                },
                Answer::Scrollback(lines) => {
                    &&& has_members(said, set!["count"@, "lines"@])
                    &&& said.member("count"@) == Some(Json::Int(lines@.len() as int))
                    &&& says_lines(said.member("lines"@), lines@)
                },
                Answer::Done => {
                    &&& has_members(said, set!["ok"@])
                    &&& said.member("ok"@) == Some(Json::Bool(true))
                },
                Answer::Stopped { outcome, alive, exit_code } => {
                    &&& has_members(
                        said,
                        set!["ok"@, "signalled"@, "exited"@, "alive"@, "exit_code"@],
                    )
                    &&& said.member("ok"@) == Some(Json::Bool(true))
                    &&& said.member("signalled"@) == Some(Json::Text(outcome.signalled@))
                    &&& said.member("exited"@) == Some(Json::Bool(outcome.exited))
                    &&& said.member("alive"@) == Some(Json::Bool(alive))
                    &&& says_exit_code(said.member("exit_code"@), exit_code)
                },
                Answer::WaitUsage => {
                    &&& has_members(said, set!["error"@])
                    &&& said.member("error"@) == Some(
                        Json::Text("exactly one of text, regex, gone, stable_ms is required"@),
                    )
                },
                Answer::Refused(message) => {
                    &&& has_members(said, set!["error"@])
                    &&& said.member("error"@) == Some(Json::Text(message@))
                },
                Answer::Failed(message) => {
                    &&& has_members(said, set!["error"@])
                    &&& said.member("error"@) == Some(Json::Text(message@))
                },
            }
        }),
{
    match answer {
        Answer::Cursor { row, col } => {
            law_pair_members(row, col, arbitrary());
        },
        Answer::Scrollback(lines) => {
            law_pair_members(0, 0, lines);
        },
        Answer::Status(status) => {
            law_status_members(status);
        },
        Answer::Stopped { outcome, alive, exit_code } => {
            law_stop_members(outcome, alive, exit_code);
        },
        _ => {},
    }
}

/// A response is sent as its answer calls for: a page as HTML, all else as JSON; what is
/// encoded already as it is, a document as its text. What the request got wrong is
/// answered with 400, what the session failed at with 500, all else with 200.
pub proof fn law_how_answers_are_sent(answer: Answer)
    ensures
        answer.status() == match answer {
            Answer::WaitUsage => 400,
            Answer::Refused(_) => 400,
            Answer::Failed(_) => 500,
            _ => 200u16,
        },
        answer is ScreenHtml ==> answer.content().content_type() == "text/html"@,
        !(answer is ScreenHtml) ==> answer.content().content_type() == "application/json"@,
        match answer {
            Answer::Screen(text) => answer.content().text() == text@,
            Answer::ScreenHtml(html) => answer.content().text() == html@,
            Answer::Waited(text) => answer.content().text() == text@,
            _ => answer.content() matches BodyView::Document(document) && answer.content().text()
                == json::json_text(document),
        },
{
}

/// A body says what it holds.
pub proof fn law_bodies_say_what_they_hold(document: serde_json::Value, text: String)
    ensures
        Body::Document(document)@ == BodyView::Document(json::value_content(document)),
        Body::Encoded(text)@ == BodyView::Encoded(text@),
        Body::Html(text)@ == BodyView::Html(text@),
{
}

} // verus!
