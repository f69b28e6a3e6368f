//! WebSocket connections, step by step.

use ptyctl::ws::{
    advance_connection, advance_receiver, advance_sender, begin_connection, begin_receiver,
    begin_sender, encode_frame, frame_document, ConnectionAction, ConnectionEvent,
    ConnectionState, Frame, ReceiverAction, ReceiverEvent, ReceiverState, SenderAction,
    SenderEvent, SenderState, SessionInput, Side, WireFrame, WsClientMessage,
};

fn text(frame: Frame) -> String {
    match encode_frame(frame) {
        WireFrame::Text(text) => text,
        WireFrame::Binary(bytes) => panic!("binary frame: {bytes:?}"),
    }
}

fn send_all(events: Vec<SenderEvent>) -> (SenderState, Vec<SenderAction>) {
    let (mut state, action) = begin_sender();
    let mut actions = vec![action];
    for event in events {
        let (next, action) = advance_sender(state, event);
        state = next;
        actions.push(action);
    }
    (state, actions)
}

fn receive_all(events: Vec<ReceiverEvent>) -> (ReceiverState, Vec<ReceiverAction>) {
    let (mut state, action) = begin_receiver();
    let mut actions = vec![action];
    for event in events {
        let (next, action) = advance_receiver(state, event);
        state = next;
        actions.push(action);
    }
    (state, actions)
}

#[test]
fn closed_frame_holds_the_exit_code() {
    assert_eq!(text(Frame::Closed(Some(7))), r#"{"exit_code":7,"type":"closed"}"#);
    assert_eq!(text(Frame::Closed(Some(-1))), r#"{"exit_code":-1,"type":"closed"}"#);
    assert_eq!(text(Frame::Closed(None)), r#"{"exit_code":null,"type":"closed"}"#);
}

#[test]
fn warning_frame_counts_what_was_dropped() {
    for n in [0u64, 9, 10, 12, 100, 4096, u64::MAX] {
        let expected =
            format!(r#"{{"message":"dropped {n} output chunks (slow consumer)","type":"warning"}}"#);
        assert_eq!(text(Frame::Dropped(n)), expected);
    }
}

#[test]
fn output_frames_are_binary_and_carry_no_document() {
    let frame = Frame::Output(vec![0, 27, 255]);
    assert_eq!(frame_document(&frame), None);
    assert_eq!(encode_frame(frame), WireFrame::Binary(vec![0, 27, 255]));
    let document = frame_document(&Frame::Closed(Some(7))).unwrap();
    assert_eq!(document["type"], "closed");
    assert_eq!(document["exit_code"], 7);
}

#[test]
fn output_is_forwarded_in_order() {
    let (state, actions) = send_all(vec![
        SenderEvent::Output(vec![1, 2]),
        SenderEvent::Sent,
        SenderEvent::Output(vec![3]),
        SenderEvent::Sent,
    ]);
    assert_eq!(state, SenderState::Awaiting);
    assert_eq!(
        actions,
        vec![
            SenderAction::Await,
            SenderAction::Send(Frame::Output(vec![1, 2])),
            SenderAction::Await,
            SenderAction::Send(Frame::Output(vec![3])),
            SenderAction::Await,
        ]
    );
}

#[test]
fn output_is_forwarded_between_warnings() {
    let (_, actions) = send_all(vec![
        SenderEvent::Output(vec![1]),
        SenderEvent::Sent,
        SenderEvent::Lagged(4),
        SenderEvent::SendFailed,
        SenderEvent::Output(vec![2]),
        SenderEvent::Output(vec![9]),
        SenderEvent::Sent,
        SenderEvent::ShuttingDown,
        SenderEvent::Output(vec![9]),
    ]);
    let sent: Vec<SenderAction> = actions
        .into_iter()
        .filter(|action| matches!(action, SenderAction::Send(Frame::Output(_))))
        .collect();
    assert_eq!(
        sent,
        vec![
            SenderAction::Send(Frame::Output(vec![1])),
            SenderAction::Send(Frame::Output(vec![2])),
        ]
    );
}

#[test]
fn output_that_cannot_be_sent_ends_the_sender() {
    let (state, actions) = send_all(vec![SenderEvent::Output(vec![1]), SenderEvent::SendFailed]);
    assert_eq!(state, SenderState::Finished);
    assert_eq!(actions.last(), Some(&SenderAction::Finish));
}

#[test]
fn lagging_is_warned_about_and_survived() {
    for end in [SenderEvent::Sent, SenderEvent::SendFailed] {
        let (state, actions) = send_all(vec![SenderEvent::Lagged(12), end]);
        assert_eq!(state, SenderState::Awaiting);
        assert_eq!(actions[1], SenderAction::Send(Frame::Dropped(12)));
        assert_eq!(actions[2], SenderAction::Await);
    }
}

#[test]
fn the_end_of_output_closes_the_socket() {
    for output_ended in [true, false] {
        for sent in [SenderEvent::Sent, SenderEvent::SendFailed] {
            let end = if output_ended { SenderEvent::Closed } else { SenderEvent::ShuttingDown };
            let (state, actions) = send_all(vec![
                end,
                SenderEvent::Locked,
                SenderEvent::Status { exit_code: Some(7) },
                sent,
                SenderEvent::Unlocked,
            ]);
            assert_eq!(state, SenderState::Finished);
            assert_eq!(
                actions,
                vec![
                    SenderAction::Await,
                    SenderAction::Lock,
                    SenderAction::ReadStatus,
                    SenderAction::Send(Frame::Closed(Some(7))),
                    SenderAction::Unlock,
                    SenderAction::Finish,
                ]
            );
        }
    }
}

#[test]
fn events_that_are_not_due_are_ignored_by_the_sender() {
    let (state, actions) = send_all(vec![
        SenderEvent::Sent,
        SenderEvent::Closed,
        SenderEvent::Output(vec![1]),
        SenderEvent::Locked,
        SenderEvent::ShuttingDown,
    ]);
    assert_eq!(state, SenderState::ReadingStatus);
    assert_eq!(actions[1], SenderAction::Ignore);
    assert_eq!(actions[3], SenderAction::Ignore);
    assert_eq!(actions[5], SenderAction::Ignore);
}

#[test]
fn binary_frames_are_written_raw() {
    let (state, mut actions) = receive_all(vec![
        ReceiverEvent::Binary(vec![3, 4]),
        ReceiverEvent::Locked,
        ReceiverEvent::Applied,
        ReceiverEvent::Unlocked,
    ]);
    assert_eq!(state, ReceiverState::Awaiting);
    assert_eq!(actions.len(), 5);
    assert_eq!(actions[1], ReceiverAction::Lock);
    assert_eq!(actions[3], ReceiverAction::Unlock);
    assert_eq!(actions[4], ReceiverAction::Await);
    match actions.swap_remove(2) {
        ReceiverAction::Apply(input) => assert_eq!(input.bytes(), Some(&[3u8, 4][..])),
        other => panic!("{other:?}"),
    }
}

#[test]
fn messages_are_applied() {
    for (message, input) in [
        (
            WsClientMessage::Input { data: "h\u{e9}".to_string() },
            SessionInput::Text("h\u{e9}".to_string()),
        ),
        (
            WsClientMessage::Keys { keys: "<C-c>".to_string() },
            SessionInput::Keys("<C-c>".to_string()),
        ),
        (
            WsClientMessage::Resize { cols: 120, rows: 40 },
            SessionInput::Resize { cols: 120, rows: 40 },
        ),
    ] {
        let (_, actions) =
            receive_all(vec![ReceiverEvent::Text(Some(message)), ReceiverEvent::Locked]);
        assert_eq!(actions[2], ReceiverAction::Apply(input));
    }
}

#[test]
fn frames_are_applied_in_order_until_the_close() {
    let keys = WsClientMessage::Keys { keys: "<CR>".to_string() };
    let (state, actions) = receive_all(vec![
        ReceiverEvent::Binary(vec![1]),
        ReceiverEvent::Locked,
        ReceiverEvent::Applied,
        ReceiverEvent::Unlocked,
        ReceiverEvent::Text(None),
        ReceiverEvent::Text(Some(keys)),
        ReceiverEvent::Locked,
        ReceiverEvent::Applied,
        ReceiverEvent::Unlocked,
        ReceiverEvent::Close,
        ReceiverEvent::Binary(vec![2]),
        ReceiverEvent::Locked,
        ReceiverEvent::Applied,
        ReceiverEvent::Unlocked,
    ]);
    assert_eq!(state, ReceiverState::Finished);
    let applied: Vec<ReceiverAction> = actions
        .into_iter()
        .filter(|action| matches!(action, ReceiverAction::Apply(_)))
        .collect();
    assert_eq!(
        applied,
        vec![
            ReceiverAction::Apply(SessionInput::Bytes(vec![1])),
            ReceiverAction::Apply(SessionInput::Keys("<CR>".to_string())),
        ]
    );
}

#[test]
fn input_text_is_written_as_utf8() {
    let input = SessionInput::Text("h\u{e9}".to_string());
    assert_eq!(input.bytes(), Some(&[0x68u8, 0xc3, 0xa9][..]));
    assert_eq!(SessionInput::Keys("x".to_string()).bytes(), None);
    assert_eq!(SessionInput::Resize { cols: 1, rows: 1 }.bytes(), None);
}

#[test]
fn noise_is_passed_over() {
    let (state, actions) = receive_all(vec![ReceiverEvent::Text(None), ReceiverEvent::Other]);
    assert_eq!(state, ReceiverState::Awaiting);
    assert_eq!(
        actions,
        vec![ReceiverAction::Await, ReceiverAction::Await, ReceiverAction::Await]
    );
}

#[test]
fn the_receiver_ends_with_the_client() {
    for event in [ReceiverEvent::Close, ReceiverEvent::Ended] {
        let (state, actions) = receive_all(vec![event]);
        assert_eq!(state, ReceiverState::Finished);
        assert_eq!(actions[1], ReceiverAction::Finish);
    }
    let (state, actions) = receive_all(vec![ReceiverEvent::Binary(vec![1]), ReceiverEvent::Close]);
    assert_eq!(state, ReceiverState::Locking(SessionInput::Bytes(vec![1])));
    assert_eq!(actions[2], ReceiverAction::Ignore);
}

#[test]
fn the_first_side_to_end_breaks_the_other_off() {
    for (side, other) in [(Side::Sender, Side::Receiver), (Side::Receiver, Side::Sender)] {
        let (state, action) = begin_connection();
        assert_eq!(action, ConnectionAction::Lock);
        let (state, action) = advance_connection(state, ConnectionEvent::Locked);
        assert_eq!(action, ConnectionAction::Subscribe);
        let (state, action) = advance_connection(state, ConnectionEvent::Subscribed);
        assert_eq!(action, ConnectionAction::Unlock);
        let (state, action) = advance_connection(state, ConnectionEvent::Unlocked);
        assert_eq!(action, ConnectionAction::Start);
        let (state, action) = advance_connection(state, ConnectionEvent::SideEnded(side));
        assert_eq!((state, action), (ConnectionState::Ended, ConnectionAction::Abort(other)));
        let (state, action) = advance_connection(state, ConnectionEvent::SideEnded(other));
        assert_eq!((state, action), (ConnectionState::Ended, ConnectionAction::Ignore));
    }
}

#[test]
fn nothing_is_sent_after_the_closed_frame() {
    let (state, actions) = send_all(vec![
        SenderEvent::Closed,
        SenderEvent::Locked,
        SenderEvent::Status { exit_code: None },
        SenderEvent::Output(vec![1]),
        SenderEvent::Sent,
        SenderEvent::Lagged(1),
        SenderEvent::Status { exit_code: Some(1) },
        SenderEvent::Unlocked,
        SenderEvent::Output(vec![2]),
        SenderEvent::ShuttingDown,
    ]);
    assert_eq!(state, SenderState::Finished);
    let sent: Vec<&SenderAction> =
        actions.iter().filter(|action| matches!(action, SenderAction::Send(_))).collect();
    assert_eq!(sent, vec![&SenderAction::Send(Frame::Closed(None))]);
}
