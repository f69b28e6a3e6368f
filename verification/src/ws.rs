//! One WebSocket connection.
//!
//! Server to client:
//! - binary frames: raw output bytes of the terminal;
//! - text frames: `{"type":"warning",...}` when output was dropped because the
//!   client is too slow, `{"type":"closed","exit_code":N}` when the stream ends.
//!
//! Client to server:
//! - binary frames: raw bytes for the terminal;
//! - text frames with a `type`: `{"type":"input","data":"text"}` for text,
//!   `{"type":"keys","keys":"<C-c>"}` for keystrokes in vim notation,
//!   `{"type":"resize","cols":120,"rows":40}` for a new size.
//!
//! A connection has two sides, each with its own steps: the sender forwards output
//! until the output ends or the server shuts down, the receiver applies what the
//! client sends. Each step names one action; what comes of it is handed back as an
//! event.

use crate::json;
use crate::json::Json;
use crate::number;
use vstd::prelude::*;
use vstd::string::*;

verus! {

/// Incoming WebSocket message from client.
#[derive(Debug, PartialEq)]
pub enum WsClientMessage {
    /// Send raw input text to the terminal.
    Input { data: String },
    /// Send vim-notation keys to the terminal.
    Keys { keys: String },
    /// Resize the terminal.
    Resize { cols: u16, rows: u16 },
}

/// What is sent to the client.
#[derive(Debug, PartialEq)]
pub enum Frame {
    /// Output of the terminal.
    Output(Vec<u8>),
    /// This many chunks of output were dropped.
    Dropped(u64),
    /// The stream has ended; the exit code of the child, if it has one.
    Closed(Option<i32>),
}

/// A frame as it goes over the wire.
#[derive(Debug, PartialEq)]
pub enum WireFrame {
    Binary(Vec<u8>),
    Text(String),
}

/// The message of a warning about dropped output.
pub open spec fn dropped_message(n: nat) -> Seq<char> {
    "dropped "@ + number::decimal(n) + " output chunks (slow consumer)"@
}

impl Frame {
    /// The document that a text frame carries, if the frame is one.
    pub open spec fn document(self) -> Option<Json> {
        match self {
            Frame::Output(_) => None,
            Frame::Dropped(n) => Some(
                Json::Object(
                    map![
                        "type"@ => Json::Text("warning"@),
                        "message"@ => Json::Text(dropped_message(n as nat)),
                    ],
                ),
            ),
            Frame::Closed(exit_code) => Some(
                Json::Object(
                    map![
                        "type"@ => Json::Text("closed"@),
                        "exit_code"@ => json::exit_code_json(exit_code),
                    ],
                ),
            ),
        }
    }
}

/// The document of a warning about dropped output.
fn dropped_document(n: u64) -> (document: serde_json::Value)
    ensures
        Frame::Dropped(n).document() == Some(json::value_content(document)),
{
    let mut message = "dropped ".to_string();
    number::push_decimal(&mut message, n);
    message.append(" output chunks (slow consumer)");
    let mut members = json::new_members();
    json::put(&mut members, "type", json::text_value("warning".to_string()));
    json::put(&mut members, "message", json::text_value(message));
    json::object_value(members)
}

/// The document of a closed frame.
fn closed_document(exit_code: Option<i32>) -> (document: serde_json::Value)
    ensures
        Frame::Closed(exit_code).document() == Some(json::value_content(document)),
{
    let mut members = json::new_members();
    json::put(&mut members, "type", json::text_value("closed".to_string()));
    json::put(&mut members, "exit_code", json::exit_code_value(exit_code));
    json::object_value(members)
}

/// The document that a text frame carries; a frame of output carries none.
pub fn frame_document(frame: &Frame) -> (document: Option<serde_json::Value>)
    ensures
        match document {
            Some(v) => frame.document() == Some(json::value_content(v)),
            None => frame.document() is None,
        },
{
    match frame {
        Frame::Output(_) => None,
        Frame::Dropped(n) => Some(dropped_document(*n)),
        Frame::Closed(exit_code) => Some(closed_document(*exit_code)),
    }
}

/// Encodes a frame: output as it is, anything else as the text of its document.
pub fn encode_frame(frame: Frame) -> (wire: WireFrame)
    ensures
        match frame.document() {
            Some(document) => wire matches WireFrame::Text(text) && text@ == json::json_text(
                document,
            ),
            None => frame matches Frame::Output(bytes) && wire == WireFrame::Binary(bytes),
        },
{
    match frame {
        Frame::Output(bytes) => WireFrame::Binary(bytes),
        Frame::Dropped(n) => WireFrame::Text(json::value_text(&dropped_document(n))),
        Frame::Closed(exit_code) => WireFrame::Text(
            json::value_text(&closed_document(exit_code)),
        ),
    }
}

/// How far the sender has come.
#[derive(Debug, Clone, Copy, PartialEq, Eq, Structural)]
pub enum SenderState {
    /// Output, or the end of it, is waited for.
    Awaiting,
    /// Output is being sent.
    SendingOutput,
    /// A warning is being sent.
    SendingWarning,
    /// The stream has ended; the session's lock has been asked for.
    Locking,
    /// The exit code is being read from the locked session.
    ReadingStatus,
    /// The closed frame is being sent, the session still locked.
    SendingClosed,
    /// The session's lock is being released.
    Unlocking,
    /// The sender has ended.
    Finished,
}

/// What the sender is to do next.
#[derive(Debug, PartialEq)]
pub enum SenderAction {
    /// Wait for output, for the end of it, or for the shutdown of the server.
    Await,
    /// Send a frame.
    Send(Frame),
    /// Take the session's lock.
    Lock,
    /// Read the status of the locked session.
    ReadStatus,
    /// Release the session's lock.
    Unlock,
    /// End the sender.
    Finish,
    /// Nothing: the event is none that was waited for.
    Ignore,
}

/// What came of it.
#[derive(Debug, PartialEq)]
pub enum SenderEvent {
    /// The terminal put out bytes.
    Output(Vec<u8>),
    /// The client is too slow: this many chunks of output were dropped.
    Lagged(u64),
    /// There will be no more output.
    Closed,
    /// The server is shutting down.
    ShuttingDown,
    /// The frame was sent.
    Sent,
    /// The frame could not be sent.
    SendFailed,
    /// The lock is held.
    Locked,
    /// The exit code of the child, if it has one.
    Status { exit_code: Option<i32> },
    /// The lock has been released.
    Unlocked,
}

/// The step of the sender that an event leads to.
pub open spec fn next_sender(state: SenderState, event: SenderEvent) -> (
    SenderState,
    SenderAction,
) {
    match (state, event) {
        (SenderState::Awaiting, SenderEvent::Output(bytes)) => (
            SenderState::SendingOutput,
            SenderAction::Send(Frame::Output(bytes)),
        ),
        (SenderState::Awaiting, SenderEvent::Lagged(n)) => (
            SenderState::SendingWarning,
            SenderAction::Send(Frame::Dropped(n)),
        ),
        (SenderState::Awaiting, SenderEvent::Closed) => (SenderState::Locking, SenderAction::Lock),
        (SenderState::Awaiting, SenderEvent::ShuttingDown) => (
            SenderState::Locking,
            SenderAction::Lock,
        ),
        (SenderState::SendingOutput, SenderEvent::Sent) => (
            SenderState::Awaiting,
            SenderAction::Await,
        ),
        (SenderState::SendingOutput, SenderEvent::SendFailed) => (
            SenderState::Finished,
            SenderAction::Finish,
        ),
        (SenderState::SendingWarning, SenderEvent::Sent) => (
            SenderState::Awaiting,
            SenderAction::Await,
        ),
        (SenderState::SendingWarning, SenderEvent::SendFailed) => (
            SenderState::Awaiting,
            SenderAction::Await,
        ),
        (SenderState::Locking, SenderEvent::Locked) => (
            SenderState::ReadingStatus,
            SenderAction::ReadStatus,
        ),
        (SenderState::ReadingStatus, SenderEvent::Status { exit_code }) => (
            SenderState::SendingClosed,
            SenderAction::Send(Frame::Closed(exit_code)),
        ),
        (SenderState::SendingClosed, SenderEvent::Sent) => (
            SenderState::Unlocking,
            SenderAction::Unlock,
        ),
        (SenderState::SendingClosed, SenderEvent::SendFailed) => (
            SenderState::Unlocking,
            SenderAction::Unlock,
        ),
        (SenderState::Unlocking, SenderEvent::Unlocked) => (
            SenderState::Finished,
            SenderAction::Finish,
        ),
        (state, _) => (state, SenderAction::Ignore),
    }
}

/// Begins to forward output.
pub fn begin_sender() -> (step: (SenderState, SenderAction))
    ensures
        step == (SenderState::Awaiting, SenderAction::Await),
{
    (SenderState::Awaiting, SenderAction::Await)
}

/// Goes on forwarding with what came of the last action. A frame of output that
/// cannot be sent ends the sender; a warning that cannot be sent is let go.
pub fn advance_sender(state: SenderState, event: SenderEvent) -> (step: (
    SenderState,
    SenderAction,
))
    ensures
        step == next_sender(state, event),
{
    match (state, event) {
        (SenderState::Awaiting, SenderEvent::Output(bytes)) => (
            SenderState::SendingOutput,
            SenderAction::Send(Frame::Output(bytes)),
        ),
        (SenderState::Awaiting, SenderEvent::Lagged(n)) => (
            SenderState::SendingWarning,
            SenderAction::Send(Frame::Dropped(n)),
        ),
        (SenderState::Awaiting, SenderEvent::Closed) => (SenderState::Locking, SenderAction::Lock),
        (SenderState::Awaiting, SenderEvent::ShuttingDown) => (
            SenderState::Locking,
            SenderAction::Lock,
        ),
        (SenderState::SendingOutput, SenderEvent::Sent) => (
            SenderState::Awaiting,
            SenderAction::Await,
        ),
        (SenderState::SendingOutput, SenderEvent::SendFailed) => (
            SenderState::Finished,
            SenderAction::Finish,
        ),
        (SenderState::SendingWarning, SenderEvent::Sent) => (
            SenderState::Awaiting,
            SenderAction::Await,
        ),
        (SenderState::SendingWarning, SenderEvent::SendFailed) => (
            SenderState::Awaiting,
            SenderAction::Await,
        ),
        (SenderState::Locking, SenderEvent::Locked) => (
            SenderState::ReadingStatus,
            SenderAction::ReadStatus,
        ),
        (SenderState::ReadingStatus, SenderEvent::Status { exit_code }) => (
            SenderState::SendingClosed,
            SenderAction::Send(Frame::Closed(exit_code)),
        ),
        (SenderState::SendingClosed, SenderEvent::Sent) => (
            SenderState::Unlocking,
            SenderAction::Unlock,
        ),
        (SenderState::SendingClosed, SenderEvent::SendFailed) => (
            SenderState::Unlocking,
            SenderAction::Unlock,
        ),
        (SenderState::Unlocking, SenderEvent::Unlocked) => (
            SenderState::Finished,
            SenderAction::Finish,
        ),
        (state, _) => (state, SenderAction::Ignore),
    }
}

/// What a client asks of the session.
#[derive(Debug, PartialEq)]
pub enum SessionInput {
    /// Write these bytes to the terminal.
    Bytes(Vec<u8>),
    /// Write this text to the terminal.
    Text(String),
    /// Send these keys, in vim notation.
    Keys(String),
    /// Set the size of the terminal.
    Resize { cols: u16, rows: u16 },
}

/// What a message from the client asks for.
pub open spec fn message_input(message: WsClientMessage) -> SessionInput {
    match message {
        WsClientMessage::Input { data } => SessionInput::Text(data),
        WsClientMessage::Keys { keys } => SessionInput::Keys(keys),
        WsClientMessage::Resize { cols, rows } => SessionInput::Resize { cols, rows },
    }
}

impl SessionInput {
    /// The bytes that are written to the terminal as they stand, if the input is
    /// such bytes.
    pub open spec fn raw_bytes(self) -> Option<Seq<u8>> {
        match self {
            SessionInput::Bytes(bytes) => Some(bytes@),
            SessionInput::Text(text) => Some(vstd::utf8::encode_utf8(text@)),
            _ => None,
        }
    }

    /// The bytes that are written to the terminal as they stand.
    pub fn bytes(&self) -> (bytes: Option<&[u8]>)
        ensures
            match bytes {
                Some(b) => self.raw_bytes() == Some(b@),
                None => self.raw_bytes() is None,
            },
    {
        match self {
            SessionInput::Bytes(bytes) => Some(bytes.as_slice()),
            SessionInput::Text(text) => Some(text.as_str().as_bytes()),
            _ => None,
        }
    }
}

/// How far the receiver has come.
#[derive(Debug, PartialEq)]
pub enum ReceiverState {
    /// A message is waited for.
    Awaiting,
    /// The session's lock has been asked for.
    Locking(SessionInput),
    /// The locked session is taking the input.
    Applying,
    /// The session's lock is being released.
    Unlocking,
    /// The receiver has ended.
    Finished,
}

/// What the receiver is to do next.
#[derive(Debug, PartialEq)]
pub enum ReceiverAction {
    /// Wait for a message.
    Await,
    /// Take the session's lock.
    Lock,
    /// Hand this to the locked session.
    Apply(SessionInput),
    /// Release the session's lock.
    Unlock,
    /// End the receiver.
    Finish,
    /// Nothing: the event is none that was waited for.
    Ignore,
}

/// What came of it.
#[derive(Debug, PartialEq)]
pub enum ReceiverEvent {
    /// A binary frame.
    Binary(Vec<u8>),
    /// A text frame, with the message in it, if it holds one.
    Text(Option<WsClientMessage>),
    /// A close frame.
    Close,
    /// A frame of another kind.
    Other,
    /// There are no more frames, or reading one failed.
    Ended,
    /// The lock is held.
    Locked,
    /// The session has taken the input, or refused it.
    Applied,
    /// The lock has been released.
    Unlocked,
}

/// The step of the receiver that an event leads to.
pub open spec fn next_receiver(state: ReceiverState, event: ReceiverEvent) -> (
    ReceiverState,
    ReceiverAction,
) {
    match (state, event) {
        (ReceiverState::Awaiting, ReceiverEvent::Binary(bytes)) => (
            ReceiverState::Locking(SessionInput::Bytes(bytes)),
            ReceiverAction::Lock,
        ),
        (ReceiverState::Awaiting, ReceiverEvent::Text(Some(message))) => (
            ReceiverState::Locking(message_input(message)),
            ReceiverAction::Lock,
        ),
        (ReceiverState::Awaiting, ReceiverEvent::Text(None)) => (
            ReceiverState::Awaiting,
            ReceiverAction::Await,
        ),
        (ReceiverState::Awaiting, ReceiverEvent::Other) => (
            ReceiverState::Awaiting,
            ReceiverAction::Await,
        ),
        (ReceiverState::Awaiting, ReceiverEvent::Close) => (
            ReceiverState::Finished,
            ReceiverAction::Finish,
        ),
        (ReceiverState::Awaiting, ReceiverEvent::Ended) => (
            ReceiverState::Finished,
            ReceiverAction::Finish,
        ),
        (ReceiverState::Locking(input), ReceiverEvent::Locked) => (
            ReceiverState::Applying,
            ReceiverAction::Apply(input),
        ),
        (ReceiverState::Applying, ReceiverEvent::Applied) => (
            ReceiverState::Unlocking,
            ReceiverAction::Unlock,
        ),
        (ReceiverState::Unlocking, ReceiverEvent::Unlocked) => (
            ReceiverState::Awaiting,
            ReceiverAction::Await,
        ),
        (state, _) => (state, ReceiverAction::Ignore),
    }
}

/// Begins to read messages.
pub fn begin_receiver() -> (step: (ReceiverState, ReceiverAction))
    ensures
        step == (ReceiverState::Awaiting, ReceiverAction::Await),
{
    (ReceiverState::Awaiting, ReceiverAction::Await)
}

/// Goes on reading with what came of the last action. A text frame that holds no
/// message is passed over.
pub fn advance_receiver(state: ReceiverState, event: ReceiverEvent) -> (step: (
    ReceiverState,
    ReceiverAction,
))
    ensures
        step == next_receiver(state, event),
{
    match (state, event) {
        (ReceiverState::Awaiting, ReceiverEvent::Binary(bytes)) => (
            ReceiverState::Locking(SessionInput::Bytes(bytes)),
            ReceiverAction::Lock,
        ),
        (ReceiverState::Awaiting, ReceiverEvent::Text(Some(message))) => {
            let input = match message {
                WsClientMessage::Input { data } => SessionInput::Text(data),
                WsClientMessage::Keys { keys } => SessionInput::Keys(keys),
                WsClientMessage::Resize { cols, rows } => SessionInput::Resize { cols, rows },
            };
            (ReceiverState::Locking(input), ReceiverAction::Lock)
        },
        (ReceiverState::Awaiting, ReceiverEvent::Text(None)) => (
            ReceiverState::Awaiting,
            ReceiverAction::Await,
        ),
        (ReceiverState::Awaiting, ReceiverEvent::Other) => (
            ReceiverState::Awaiting,
            ReceiverAction::Await,
        ),
        (ReceiverState::Awaiting, ReceiverEvent::Close) => (
            ReceiverState::Finished,
            ReceiverAction::Finish,
        ),
        (ReceiverState::Awaiting, ReceiverEvent::Ended) => (
            ReceiverState::Finished,
            ReceiverAction::Finish,
        ),
        (ReceiverState::Locking(input), ReceiverEvent::Locked) => (
            ReceiverState::Applying,
            ReceiverAction::Apply(input),
        ),
        (ReceiverState::Applying, ReceiverEvent::Applied) => (
            ReceiverState::Unlocking,
            ReceiverAction::Unlock,
        ),
        (ReceiverState::Unlocking, ReceiverEvent::Unlocked) => (
            ReceiverState::Awaiting,
            ReceiverAction::Await,
        ),
        (state, _) => (state, ReceiverAction::Ignore),
    }
}

/// A side of a connection.
#[derive(Debug, Clone, Copy, PartialEq, Eq, Structural)]
pub enum Side {
    Sender,
    Receiver,
}

/// How far a connection has come.
#[derive(Debug, Clone, Copy, PartialEq, Eq, Structural)]
pub enum ConnectionState {
    /// The session's lock has been asked for.
    Locking,
    /// The connection is being subscribed to the locked session's output and to
    /// the server's shutdown.
    Subscribing,
    /// The session's lock is being released.
    Unlocking,
    /// Both sides run.
    Running,
    /// The connection has ended.
    Ended,
}

/// What is to be done next for a connection.
#[derive(Debug, Clone, Copy, PartialEq, Eq, Structural)]
pub enum ConnectionAction {
    /// Take the session's lock.
    Lock,
    /// Subscribe to the locked session's output and to the server's shutdown.
    Subscribe,
    /// Release the session's lock.
    Unlock,
    /// Start both sides.
    Start,
    /// Break this side off.
    Abort(Side),
    /// Nothing: the event is none that was waited for.
    Ignore,
}

/// What came of it.
#[derive(Debug, Clone, Copy, PartialEq, Eq, Structural)]
pub enum ConnectionEvent {
    /// The lock is held.
    Locked,
    /// The connection is subscribed.
    Subscribed,
    /// The lock has been released.
    Unlocked,
    /// A side has ended.
    SideEnded(Side),
}

/// The other side.
pub open spec fn other_side(side: Side) -> Side {
    match side {
        Side::Sender => Side::Receiver,
        Side::Receiver => Side::Sender,
    }
}

/// The step of a connection that an event leads to.
pub open spec fn next_connection(state: ConnectionState, event: ConnectionEvent) -> (
    ConnectionState,
    ConnectionAction,
) {
    match (state, event) {
        (ConnectionState::Locking, ConnectionEvent::Locked) => (
            ConnectionState::Subscribing,
            ConnectionAction::Subscribe,
        ),
        (ConnectionState::Subscribing, ConnectionEvent::Subscribed) => (
            ConnectionState::Unlocking,
            ConnectionAction::Unlock,
        ),
        (ConnectionState::Unlocking, ConnectionEvent::Unlocked) => (
            ConnectionState::Running,
            ConnectionAction::Start,
        ),
        (ConnectionState::Running, ConnectionEvent::SideEnded(side)) => (
            ConnectionState::Ended,
            ConnectionAction::Abort(other_side(side)),
        ),
        (state, _) => (state, ConnectionAction::Ignore),
    }
}

/// Begins a connection.
pub fn begin_connection() -> (step: (ConnectionState, ConnectionAction))
    ensures
        step == (ConnectionState::Locking, ConnectionAction::Lock),
{
    (ConnectionState::Locking, ConnectionAction::Lock)
}

/// Goes on with what came of the last action. The first side to end breaks the
/// other one off.
pub fn advance_connection(state: ConnectionState, event: ConnectionEvent) -> (step: (
    ConnectionState,
    ConnectionAction,
))
    ensures
        step == next_connection(state, event),
{
    match (state, event) {
        (ConnectionState::Locking, ConnectionEvent::Locked) => (
            ConnectionState::Subscribing,
            ConnectionAction::Subscribe,
        ),
        (ConnectionState::Subscribing, ConnectionEvent::Subscribed) => (
            ConnectionState::Unlocking,
            ConnectionAction::Unlock,
        ),
        (ConnectionState::Unlocking, ConnectionEvent::Unlocked) => (
            ConnectionState::Running,
            ConnectionAction::Start,
        ),
        (ConnectionState::Running, ConnectionEvent::SideEnded(side)) => {
            let other = match side {
                Side::Sender => Side::Receiver,
                Side::Receiver => Side::Sender,
            };
            (ConnectionState::Ended, ConnectionAction::Abort(other))
        },
        (state, _) => (state, ConnectionAction::Ignore),
    }
}

} // verus!
