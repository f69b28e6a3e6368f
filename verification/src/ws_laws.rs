//! What holds of every WebSocket connection, whatever happens and in whatever
//! order.

use crate::json;
use crate::json::Json;
use crate::number;
use crate::ws;
use crate::ws::{
    ConnectionAction, ConnectionEvent, ConnectionState, Frame, ReceiverAction, ReceiverEvent,
    ReceiverState, SenderAction, SenderEvent, SenderState, SessionInput, Side, WsClientMessage,
};
use vstd::prelude::*;

verus! {

/// One step of the sender: the state that was reached, and the action that it asks
/// for.
pub type SenderStep = (SenderState, SenderAction);

/// The steps of the sender under a row of events, the first one before any event.
pub open spec fn sender_run(events: Seq<SenderEvent>) -> Seq<SenderStep>
    decreases events.len(),
{
    if events.len() == 0 {
        seq![(SenderState::Awaiting, SenderAction::Await)]
    } else {
        let before = sender_run(events.drop_last());
        before.push(ws::next_sender(before.last().0, events.last()))
    }
}

/// The step sends the closed frame.
pub open spec fn sends_closed(step: SenderStep) -> bool {
    step.1 matches SenderAction::Send(frame) && frame is Closed
}

/// The session's lock is held by the sender.
pub open spec fn sender_holds_lock(events: Seq<SenderEvent>) -> bool
    decreases events.len(),
{
    if events.len() == 0 {
        false
    } else {
        let earlier = events.drop_last();
        let state = sender_run(earlier).last().0;
        if ws::next_sender(state, events.last()).1 is Ignore {
            sender_holds_lock(earlier)
        } else if events.last() is Locked {
            true
        } else if events.last() is Unlocked {
            false
        } else {
            sender_holds_lock(earlier)
        }
    }
}

proof fn lemma_sender_run(events: Seq<SenderEvent>)
    ensures
        sender_run(events).len() == events.len() + 1,
        sender_holds_lock(events) == {
            let state = sender_run(events).last().0;
            ||| state == SenderState::ReadingStatus
            ||| state == SenderState::SendingClosed
            ||| state == SenderState::Unlocking
        },
    decreases events.len(),
{
    if events.len() > 0 {
        lemma_sender_run(events.drop_last());
    }
}

/// Once the closed frame is being sent, the sender only winds up.
proof fn lemma_after_closed(events: Seq<SenderEvent>, i: int)
    requires
        0 <= i <= events.len(),
        sends_closed(sender_run(events)[i]),
    ensures
        ({
            let state = sender_run(events).last().0;
            ||| state == SenderState::SendingClosed
            ||| state == SenderState::Unlocking
            ||| state == SenderState::Finished
        }),
    decreases events.len(),
{
    lemma_sender_run(events);
    if events.len() > 0 {
        let earlier = events.drop_last();
        lemma_sender_run(earlier);
        if i < events.len() {
            assert(sender_run(events)[i] == sender_run(earlier)[i]);
            lemma_after_closed(earlier, i);
        }
    }
}

/// The closed frame is the last one: nothing is sent after it, so it is sent once
/// at most.
pub proof fn law_closed_frame_is_last(events: Seq<SenderEvent>, i: int, j: int)
    requires
        0 <= i < j <= events.len(),
        sends_closed(sender_run(events)[i]),
    ensures
        !(sender_run(events)[j].1 is Send),
    decreases events.len(),
{
    lemma_sender_run(events);
    let earlier = events.drop_last();
    lemma_sender_run(earlier);
    assert(sender_run(events)[i] == sender_run(earlier)[i]);
    if j < events.len() {
        assert(sender_run(events)[j] == sender_run(earlier)[j]);
        law_closed_frame_is_last(earlier, i, j);
    } else {
        lemma_after_closed(earlier, i);
    }
}

/// Past the output, its end or the shutdown of the server was reported. Gives the
/// report.
proof fn lemma_end_was_reported(events: Seq<SenderEvent>) -> (at: int)
    requires
        ({
            let state = sender_run(events).last().0;
            ||| state == SenderState::Locking
            ||| state == SenderState::ReadingStatus
            ||| state == SenderState::SendingClosed
        }),
    ensures
        0 <= at < events.len(),
        events[at] is Closed || events[at] is ShuttingDown,
    decreases events.len(),
{
    lemma_sender_run(events);
    let earlier = events.drop_last();
    lemma_sender_run(earlier);
    if sender_run(earlier).last().0 == SenderState::Awaiting {
        events.len() - 1
    } else {
        let at = lemma_end_was_reported(earlier);
        assert(events[at] == earlier[at]);
        at
    }
}

/// The closed frame is sent only because the output has ended or the server is
/// shutting down, and it says the exit code that was read from the session just
/// before. The exit of the child alone sends nothing.
pub proof fn law_closed_frame_has_a_cause(events: Seq<SenderEvent>, exit_code: Option<i32>)
    requires
        sender_run(events).last().1 == SenderAction::Send(Frame::Closed(exit_code)),
    ensures
        events.last() == (SenderEvent::Status { exit_code }),
        exists|i: int|
            0 <= i < events.len() && (#[trigger] events[i] is Closed || events[i] is ShuttingDown),
{
    lemma_sender_run(events);
    let earlier = events.drop_last();
    lemma_sender_run(earlier);
    let at = lemma_end_was_reported(events);
    assert(events[at] is Closed || events[at] is ShuttingDown);
}

/// Past the end of the output the closed frame has been sent or will be. Gives the
/// step that sent it.
proof fn lemma_closed_was_sent(events: Seq<SenderEvent>) -> (at: int)
    requires
        ({
            let state = sender_run(events).last().0;
            state == SenderState::SendingClosed || state == SenderState::Unlocking
        }),
    ensures
        0 <= at <= events.len(),
        sends_closed(sender_run(events)[at]),
    decreases events.len(),
{
    lemma_sender_run(events);
    let earlier = events.drop_last();
    lemma_sender_run(earlier);
    let before = sender_run(earlier).last().0;
    if before == SenderState::SendingClosed || before == SenderState::Unlocking {
        let at = lemma_closed_was_sent(earlier);
        assert(sender_run(events)[at] == sender_run(earlier)[at]);
        at
    } else {
        events.len() as int
    }
}

/// A sender ends after its closed frame; the one exception is a client that cannot
/// be reached any more with output.
pub proof fn law_sender_says_goodbye(events: Seq<SenderEvent>)
    requires
        sender_run(events).last().0 == SenderState::Finished,
    ensures
        (exists|i: int| 0 <= i < events.len() && sends_closed(#[trigger] sender_run(events)[i])) || (
        exists|i: int|
            0 <= i < events.len() && (#[trigger] sender_run(events)[i]).0
                == SenderState::SendingOutput && events[i] is SendFailed),
    decreases events.len(),
{
    lemma_sender_run(events);
    let earlier = events.drop_last();
    lemma_sender_run(earlier);
    let before = sender_run(earlier).last().0;
    if before == SenderState::Finished {
        law_sender_says_goodbye(earlier);
        if exists|i: int|
            0 <= i < earlier.len() && sends_closed(#[trigger] sender_run(earlier)[i]) {
            let i = choose|i: int|
                0 <= i < earlier.len() && sends_closed(#[trigger] sender_run(earlier)[i]);
            assert(sends_closed(sender_run(events)[i]));
        } else {
            let i = choose|i: int|
                0 <= i < earlier.len() && (#[trigger] sender_run(earlier)[i]).0
                    == SenderState::SendingOutput && earlier[i] is SendFailed;
            assert(sender_run(events)[i] == sender_run(earlier)[i]);
            assert(events[i] == earlier[i]);
        }
    } else if before == SenderState::SendingOutput {
        assert(sender_run(events)[events.len() - 1] == sender_run(earlier).last());
    } else {
        let at = lemma_closed_was_sent(earlier);
        assert(sends_closed(sender_run(events)[at]));
    }
}

/// Output and warnings are sent without the session's lock, so that a slow client
/// keeps nobody from the session; its status is read with the lock held, which is
/// released before the sender ends.
pub proof fn law_sender_lock_discipline(events: Seq<SenderEvent>)
    ensures
        match sender_run(events).last().1 {
            SenderAction::Await => !sender_holds_lock(events),
            SenderAction::Send(frame) => sender_holds_lock(events) == (frame is Closed),
            SenderAction::Lock => !sender_holds_lock(events),
            SenderAction::ReadStatus => sender_holds_lock(events),
            SenderAction::Unlock => sender_holds_lock(events),
            SenderAction::Finish => !sender_holds_lock(events),
            SenderAction::Ignore => true,
        },
{
    lemma_sender_run(events);
    if events.len() > 0 {
        lemma_sender_run(events.drop_last());
    }
}

/// Output that is put out and sent, piece by piece.
pub open spec fn stream(outputs: Seq<Vec<u8>>) -> Seq<SenderEvent>
    decreases outputs.len(),
{
    if outputs.len() == 0 {
        Seq::empty()
    } else {
        stream(outputs.drop_last()).push(SenderEvent::Output(outputs.last())).push(
            SenderEvent::Sent,
        )
    }
}

/// The output in the frames that were sent, in order.
pub open spec fn sent_output(steps: Seq<SenderStep>) -> Seq<Vec<u8>>
    decreases steps.len(),
{
    if steps.len() == 0 {
        Seq::empty()
    } else {
        let earlier = sent_output(steps.drop_last());
        match steps.last().1 {
            SenderAction::Send(Frame::Output(bytes)) => earlier.push(bytes),
            _ => earlier,
        }
    }
}

proof fn lemma_sender_push(events: Seq<SenderEvent>, event: SenderEvent)
    ensures
        sender_run(events.push(event)) == sender_run(events).push(
            ws::next_sender(sender_run(events).last().0, event),
        ),
        sender_run(events.push(event)).last() == ws::next_sender(
            sender_run(events).last().0,
            event,
        ),
        sender_run(events.push(event)).drop_last() == sender_run(events),
{
    assert(events.push(event).drop_last() == events);
    assert(sender_run(events.push(event)).drop_last() == sender_run(events));
}

/// The output that came while it was awaited, in order.
pub open spec fn taken_output(events: Seq<SenderEvent>) -> Seq<Vec<u8>>
    decreases events.len(),
{
    if events.len() == 0 {
        Seq::empty()
    } else {
        let earlier = taken_output(events.drop_last());
        match events.last() {
            SenderEvent::Output(bytes) => if sender_run(events.drop_last()).last().0
                == SenderState::Awaiting {
                earlier.push(bytes)
            } else {
                earlier
            },
            _ => earlier,
        }
    }
}

/// Whatever else happens, the client is sent the output that came while it was
/// awaited: all of it and nothing else, in order, each piece as a frame of its own.
pub proof fn law_output_is_forwarded(events: Seq<SenderEvent>)
    ensures
        sent_output(sender_run(events)) == taken_output(events),
    decreases events.len(),
{
    lemma_sender_run(events);
    let steps = sender_run(events);
    if events.len() == 0 {
        assert(sent_output(steps.drop_last()) == Seq::<Vec<u8>>::empty());
    } else {
        let earlier = events.drop_last();
        law_output_is_forwarded(earlier);
        assert(steps.drop_last() == sender_run(earlier));
    }
}

/// A client that keeps up is sent the whole output, in order, each piece as a frame
/// of its own.
pub proof fn law_stream_is_forwarded(outputs: Seq<Vec<u8>>)
    ensures
        sender_run(stream(outputs)).last().0 == SenderState::Awaiting,
        sent_output(sender_run(stream(outputs))) == outputs,
    decreases outputs.len(),
{
    if outputs.len() == 0 {
        let first = sender_run(stream(outputs));
        assert(first == seq![(SenderState::Awaiting, SenderAction::Await)]);
        assert(first.drop_last().len() == 0);
        assert(sent_output(first.drop_last()) == Seq::<Vec<u8>>::empty());
    } else {
        let earlier = stream(outputs.drop_last());
        let event = SenderEvent::Output(outputs.last());
        law_stream_is_forwarded(outputs.drop_last());
        lemma_sender_push(earlier, event);
        lemma_sender_push(earlier.push(event), SenderEvent::Sent);
        assert(sent_output(sender_run(earlier.push(event))) == outputs.drop_last().push(
            outputs.last(),
        ));
        assert(outputs.drop_last().push(outputs.last()) == outputs);
    }
}

/// Output is sent because it was put out, and as it was put out.
pub proof fn law_only_output_is_forwarded(state: SenderState, event: SenderEvent, bytes: Vec<u8>)
    ensures
        ws::next_sender(state, event).1 == SenderAction::Send(Frame::Output(bytes)) <==> state
            == SenderState::Awaiting && event == SenderEvent::Output(bytes),
{
}

/// Falling behind does not end the stream: the client is told how much was dropped,
/// whether the warning reaches it or not, and the sender goes on.
pub proof fn law_lagging_is_survived(events: Seq<SenderEvent>, n: u64, sent: bool)
    requires
        sender_run(events).last().0 == SenderState::Awaiting,
    ensures
        ({
            let lagged = events.push(SenderEvent::Lagged(n));
            let end = if sent {
                SenderEvent::Sent
            } else {
                SenderEvent::SendFailed
            };
            &&& sender_run(lagged).last().1 == SenderAction::Send(Frame::Dropped(n))
            &&& sender_run(lagged.push(end)).last() == (SenderState::Awaiting, SenderAction::Await)
        }),
{
    let lagged = events.push(SenderEvent::Lagged(n));
    lemma_sender_push(events, SenderEvent::Lagged(n));
    lemma_sender_push(lagged, SenderEvent::Sent);
    lemma_sender_push(lagged, SenderEvent::SendFailed);
}

/// When the output ends or the server shuts down, the client is sent the closed
/// frame with the exit code that the session then has, and the sender ends, whether
/// the frame reaches the client or not: an open socket does not hold up the drain.
pub proof fn law_shutdown_closes_the_socket(
    events: Seq<SenderEvent>,
    end: SenderEvent,
    exit_code: Option<i32>,
    sent: bool,
)
    requires
        sender_run(events).last().0 == SenderState::Awaiting,
        end is Closed || end is ShuttingDown,
    ensures
        ({
            let asked = events.push(end).push(SenderEvent::Locked).push(
                SenderEvent::Status { exit_code },
            );
            let outcome = if sent {
                SenderEvent::Sent
            } else {
                SenderEvent::SendFailed
            };
            let done = asked.push(outcome).push(SenderEvent::Unlocked);
            &&& sender_run(asked).last().1 == SenderAction::Send(Frame::Closed(exit_code))
            &&& sender_run(done).last() == (SenderState::Finished, SenderAction::Finish)
        }),
{
    let e1 = events.push(end);
    let e2 = e1.push(SenderEvent::Locked);
    let e3 = e2.push(SenderEvent::Status { exit_code });
    let outcome = if sent {
        SenderEvent::Sent
    } else {
        SenderEvent::SendFailed
    };
    let e4 = e3.push(outcome);
    lemma_sender_push(events, end);
    lemma_sender_push(e1, SenderEvent::Locked);
    lemma_sender_push(e2, SenderEvent::Status { exit_code });
    lemma_sender_push(e3, outcome);
    lemma_sender_push(e4, SenderEvent::Unlocked);
}

/// One step of the receiver: the state that was reached, and the action that it
/// asks for.
pub type ReceiverStep = (ReceiverState, ReceiverAction);

/// The steps of the receiver under a row of events, the first one before any event.
pub open spec fn receiver_run(events: Seq<ReceiverEvent>) -> Seq<ReceiverStep>
    decreases events.len(),
{
    if events.len() == 0 {
        seq![(ReceiverState::Awaiting, ReceiverAction::Await)]
    } else {
        let before = receiver_run(events.drop_last());
        before.push(ws::next_receiver(before.last().0, events.last()))
    }
}

/// What a frame from the client asks of the session, if it asks anything.
pub open spec fn event_input(event: ReceiverEvent) -> Option<SessionInput> {
    match event {
        ReceiverEvent::Binary(bytes) => Some(SessionInput::Bytes(bytes)),
        ReceiverEvent::Text(Some(message)) => Some(ws::message_input(message)),
        _ => None,
    }
}

/// A row of inputs, and one more where there is one.
pub open spec fn with_input(inputs: Seq<SessionInput>, input: Option<SessionInput>) -> Seq<
    SessionInput,
> {
    match input {
        Some(input) => inputs.push(input),
        None => inputs,
    }
}

/// The inputs that were applied to the session, in order.
pub open spec fn applied(steps: Seq<ReceiverStep>) -> Seq<SessionInput>
    decreases steps.len(),
{
    if steps.len() == 0 {
        Seq::empty()
    } else {
        let earlier = applied(steps.drop_last());
        match steps.last().1 {
            ReceiverAction::Apply(input) => earlier.push(input),
            _ => earlier,
        }
    }
}

/// The inputs of the frames that came while a frame was awaited, in order.
pub open spec fn taken_input(events: Seq<ReceiverEvent>) -> Seq<SessionInput>
    decreases events.len(),
{
    if events.len() == 0 {
        Seq::empty()
    } else {
        let earlier = taken_input(events.drop_last());
        if receiver_run(events.drop_last()).last().0 is Awaiting {
            with_input(earlier, event_input(events.last()))
        } else {
            earlier
        }
    }
}

/// The input that waits for the session's lock.
pub open spec fn waiting_input(state: ReceiverState) -> Option<SessionInput> {
    match state {
        ReceiverState::Locking(input) => Some(input),
        _ => None,
    }
}

proof fn lemma_receiver_push(events: Seq<ReceiverEvent>, event: ReceiverEvent)
    ensures
        receiver_run(events.push(event)).last() == ws::next_receiver(
            receiver_run(events).last().0,
            event,
        ),
        receiver_run(events.push(event)).drop_last() == receiver_run(events),
{
    assert(events.push(event).drop_last() == events);
    assert(receiver_run(events.push(event)).drop_last() == receiver_run(events));
}

/// Whatever else happens, each frame that asks something of the session and comes
/// while a frame is awaited is applied, once and in order, and nothing else is; the
/// last of them may still wait for the session's lock.
pub proof fn law_input_is_applied(events: Seq<ReceiverEvent>)
    ensures
        with_input(
            applied(receiver_run(events)),
            waiting_input(receiver_run(events).last().0),
        ) == taken_input(events),
    decreases events.len(),
{
    let steps = receiver_run(events);
    if events.len() == 0 {
        assert(applied(steps.drop_last()) == Seq::<SessionInput>::empty());
    } else {
        let earlier = events.drop_last();
        law_input_is_applied(earlier);
        assert(steps.drop_last() == receiver_run(earlier));
    }
}

/// What a frame asks of the session says what the frame says: bytes are written as
/// they are, and input text as its UTF-8 bytes.
pub proof fn law_input_says_what_the_frame_says(input: SessionInput, event: ReceiverEvent)
    requires
        event_input(event) == Some(input),
    ensures
        event matches ReceiverEvent::Binary(bytes) ==> input.raw_bytes() == Some(bytes@),
        event matches ReceiverEvent::Text(Some(WsClientMessage::Input { data }))
            ==> input.raw_bytes() == Some(vstd::utf8::encode_utf8(data@)),
{
}

/// The event comes from the client: a frame, or the end of the socket.
pub open spec fn is_from_client(event: ReceiverEvent) -> bool {
    match event {
        ReceiverEvent::Binary(_) => true,
        ReceiverEvent::Text(_) => true,
        ReceiverEvent::Other => true,
        ReceiverEvent::Close => true,
        ReceiverEvent::Ended => true,
        _ => false,
    }
}

/// The client closes the socket or is gone.
pub open spec fn is_goodbye(event: ReceiverEvent) -> bool {
    event is Close || event is Ended
}

/// The client has closed the socket or is gone.
pub open spec fn has_goodbye(frames: Seq<ReceiverEvent>) -> bool {
    exists|i: int| 0 <= i < frames.len() && is_goodbye(#[trigger] frames[i])
}

/// The events that a row of frames leads to: each frame, and where it asks something
/// of the session, that the lock was obtained, the input applied and the lock
/// released.
pub open spec fn served(frames: Seq<ReceiverEvent>) -> Seq<ReceiverEvent>
    decreases frames.len(),
{
    if frames.len() == 0 {
        Seq::empty()
    } else {
        let events = served(frames.drop_last()).push(frames.last());
        if event_input(frames.last()) is Some {
            events.push(ReceiverEvent::Locked).push(ReceiverEvent::Applied).push(
                ReceiverEvent::Unlocked,
            )
        } else {
            events
        }
    }
}

/// What a row of frames asks of the session, up to the end of the socket.
pub open spec fn asked(frames: Seq<ReceiverEvent>) -> Seq<SessionInput>
    decreases frames.len(),
{
    if frames.len() == 0 {
        Seq::empty()
    } else {
        let earlier = asked(frames.drop_last());
        if has_goodbye(frames.drop_last()) {
            earlier
        } else {
            with_input(earlier, event_input(frames.last()))
        }
    }
}

proof fn lemma_has_goodbye(frames: Seq<ReceiverEvent>)
    requires
        frames.len() > 0,
    ensures
        has_goodbye(frames) == (has_goodbye(frames.drop_last()) || is_goodbye(frames.last())),
{
    let earlier = frames.drop_last();
    if has_goodbye(earlier) {
        let i = choose|i: int| 0 <= i < earlier.len() && is_goodbye(#[trigger] earlier[i]);
        assert(is_goodbye(frames[i]));
    }
    if is_goodbye(frames.last()) {
        assert(is_goodbye(frames[frames.len() - 1]));
    }
    if has_goodbye(frames) && !is_goodbye(frames.last()) {
        let i = choose|i: int| 0 <= i < frames.len() && is_goodbye(#[trigger] frames[i]);
        assert(is_goodbye(earlier[i]));
    }
}

/// What the client sends is applied to the session: the input of each frame, once
/// and in order, and none after the end of the socket. Until then the next frame is
/// waited for, whatever the session made of the last.
pub proof fn law_frames_are_applied(frames: Seq<ReceiverEvent>)
    requires
        forall|i: int| 0 <= i < frames.len() ==> is_from_client(#[trigger] frames[i]),
    ensures
        applied(receiver_run(served(frames))) == asked(frames),
        receiver_run(served(frames)).last().0 == if has_goodbye(frames) {
            ReceiverState::Finished
        } else {
            ReceiverState::Awaiting
        },
    decreases frames.len(),
{
    if frames.len() == 0 {
        let first = receiver_run(served(frames));
        assert(applied(first.drop_last()) == Seq::<SessionInput>::empty());
    } else {
        let earlier = frames.drop_last();
        let frame = frames.last();
        assert forall|i: int| 0 <= i < earlier.len() implies is_from_client(
            #[trigger] earlier[i],
        ) by {
            assert(earlier[i] == frames[i]);
        }
        assert(is_from_client(frames[frames.len() - 1]));
        law_frames_are_applied(earlier);
        lemma_has_goodbye(frames);
        let e0 = served(earlier);
        let e1 = e0.push(frame);
        let e2 = e1.push(ReceiverEvent::Locked);
        let e3 = e2.push(ReceiverEvent::Applied);
        lemma_receiver_push(e0, frame);
        lemma_receiver_push(e1, ReceiverEvent::Locked);
        lemma_receiver_push(e2, ReceiverEvent::Applied);
        lemma_receiver_push(e3, ReceiverEvent::Unlocked);
        assert(applied(receiver_run(e1)) == applied(receiver_run(e0)));
        assert(applied(receiver_run(e3)) == applied(receiver_run(e2)));
    }
}

/// A text frame that holds no message, and a frame of another kind, are passed
/// over: the session is not locked for them and the receiver goes on.
pub proof fn law_noise_is_passed_over(event: ReceiverEvent)
    requires
        event == ReceiverEvent::Text(None) || event is Other,
    ensures
        ws::next_receiver(ReceiverState::Awaiting, event) == (
            ReceiverState::Awaiting,
            ReceiverAction::Await,
        ),
{
}

/// The receiver ends when the client closes the socket or is gone, and for no other
/// reason.
pub proof fn law_receiver_ends_with_the_client(state: ReceiverState, event: ReceiverEvent)
    ensures
        ws::next_receiver(state, event).1 is Finish <==> state is Awaiting && (event is Close
            || event is Ended),
        ws::next_receiver(state, event).0 is Finished <==> state is Finished
            || ws::next_receiver(state, event).1 is Finish,
{
}

/// The session is given input only by the step that follows the lock, and the lock
/// is released before the next message is waited for.
pub proof fn law_receiver_lock_discipline(state: ReceiverState, event: ReceiverEvent)
    ensures
        match ws::next_receiver(state, event).1 {
            ReceiverAction::Lock => state is Awaiting,
            ReceiverAction::Apply(input) => state == ReceiverState::Locking(input)
                && event is Locked,
            ReceiverAction::Unlock => state is Applying && event is Applied,
            ReceiverAction::Await => state is Awaiting || state is Unlocking && event is Unlocked,
            ReceiverAction::Finish => state is Awaiting,
            ReceiverAction::Ignore => ws::next_receiver(state, event).0 == state,
        },
{
}

/// A connection subscribes with the session's lock just obtained, and its sides are
/// started only once the lock has been released.
pub proof fn law_sides_start_unlocked(state: ConnectionState, event: ConnectionEvent)
    ensures
        ws::next_connection(state, event).1 is Subscribe <==> state == ConnectionState::Locking
            && event is Locked,
        ws::next_connection(state, event).1 is Unlock <==> state == ConnectionState::Subscribing
            && event is Subscribed,
        ws::next_connection(state, event).1 is Start <==> state == ConnectionState::Unlocking
            && event is Unlocked,
{
}

/// The first side to end takes the other one with it, and the connection is then
/// over.
pub proof fn law_sides_end_together(side: Side, event: ConnectionEvent)
    ensures
        ws::next_connection(ConnectionState::Running, ConnectionEvent::SideEnded(side)) == (
            ConnectionState::Ended,
            ConnectionAction::Abort(ws::other_side(side)),
        ),
        ws::other_side(side) != side,
        ws::other_side(ws::other_side(side)) == side,
        ws::next_connection(ConnectionState::Ended, event) == (
            ConnectionState::Ended,
            ConnectionAction::Ignore,
        ),
{
}

/// A closed frame says that it is one and gives the exit code; a warning says that
/// it is one and gives its message. No member hides another.
pub proof fn law_frame_members(exit_code: Option<i32>, n: u64)
    ensures
        ({
            let members = Frame::Closed(exit_code).document().unwrap()->Object_0;
            &&& members.contains_key("type"@)
            &&& members["type"@] == Json::Text("closed"@)
            &&& members.contains_key("exit_code"@)
            &&& members["exit_code"@] == json::exit_code_json(exit_code)
        }),
        ({
            let members = Frame::Dropped(n).document().unwrap()->Object_0;
            &&& members.contains_key("type"@)
            &&& members["type"@] == Json::Text("warning"@)
            &&& members.contains_key("message"@)
            &&& members["message"@] == Json::Text(ws::dropped_message(n as nat))
        }),
{
    reveal_strlit("type");
    reveal_strlit("exit_code");
    reveal_strlit("message");
    assert("type"@.len() == 4);
    assert("exit_code"@.len() == 9);
    assert("message"@.len() == 7);
}

/// A message asks for what its kind is for, with what it carries and nothing else: an
/// input message for its text to be written, a keys message for its keys in vim notation to
/// be sent, a resize message for its columns and rows. A binary frame asks for its bytes to
/// be written, and nothing else asks for anything.
pub proof fn law_messages_ask_for_what_they_say(
    data: String,
    keys: String,
    cols: u16,
    rows: u16,
    bytes: Vec<u8>,
    event: ReceiverEvent,
)
    ensures
        event_input(ReceiverEvent::Text(Some(WsClientMessage::Input { data }))) == Some(
            SessionInput::Text(data),
        ),
        event_input(ReceiverEvent::Text(Some(WsClientMessage::Keys { keys }))) == Some(
            SessionInput::Keys(keys),
        ),
        event_input(ReceiverEvent::Text(Some(WsClientMessage::Resize { cols, rows }))) == Some(
            SessionInput::Resize { cols, rows },
        ),
        event_input(ReceiverEvent::Binary(bytes)) == Some(SessionInput::Bytes(bytes)),
        event_input(event) is Some <==> event is Binary || event is Text
            && event != ReceiverEvent::Text(None),
{
}

/// Input that is written to the terminal is written as its bytes, a text as its UTF-8
/// bytes; keys and sizes are no bytes.
pub proof fn law_only_input_is_bytes(input: SessionInput)
    ensures
        input matches SessionInput::Bytes(bytes) ==> input.raw_bytes() == Some(bytes@),
        input matches SessionInput::Text(text) ==> input.raw_bytes() == Some(
            vstd::utf8::encode_utf8(text@),
        ),
        input is Keys || input is Resize ==> input.raw_bytes() is None,
{
}

/// What the session is handed when a frame that asks something of it comes to an idle
/// receiver: the lock is taken, the input of the frame is applied as the frame says it, the
/// lock is released, and the next frame is waited for.
pub proof fn law_frame_takes_its_course(events: Seq<ReceiverEvent>, frame: ReceiverEvent)
    requires
        receiver_run(events).last().0 is Awaiting,
        frame is Binary || frame is Text && frame != ReceiverEvent::Text(None),
    ensures
        ({
            let e1 = events.push(frame);
            let e2 = e1.push(ReceiverEvent::Locked);
            let e3 = e2.push(ReceiverEvent::Applied);
            let e4 = e3.push(ReceiverEvent::Unlocked);
            &&& receiver_run(e1).last().1 == ReceiverAction::Lock
            &&& match frame {
                ReceiverEvent::Binary(bytes) => receiver_run(e2).last().1 == ReceiverAction::Apply(
                    SessionInput::Bytes(bytes),
                ),
                ReceiverEvent::Text(Some(WsClientMessage::Input { data })) => receiver_run(
                    e2,
                ).last().1 == ReceiverAction::Apply(SessionInput::Text(data)),
                ReceiverEvent::Text(Some(WsClientMessage::Keys { keys })) => receiver_run(
                    e2,
                ).last().1 == ReceiverAction::Apply(SessionInput::Keys(keys)),
                ReceiverEvent::Text(Some(WsClientMessage::Resize { cols, rows })) => receiver_run(
                    e2,
                ).last().1 == ReceiverAction::Apply(SessionInput::Resize { cols, rows }),
                _ => false,
            }
            &&& receiver_run(e3).last().1 == ReceiverAction::Unlock
            &&& receiver_run(e4).last() == (ReceiverState::Awaiting, ReceiverAction::Await)
        }),
{
    let e1 = events.push(frame);
    let e2 = e1.push(ReceiverEvent::Locked);
    let e3 = e2.push(ReceiverEvent::Applied);
    lemma_receiver_push(events, frame);
    lemma_receiver_push(e1, ReceiverEvent::Locked);
    lemma_receiver_push(e2, ReceiverEvent::Applied);
    lemma_receiver_push(e3, ReceiverEvent::Unlocked);
}

/// The receiver waits for frames while it is idle, and otherwise for the end of what it is
/// at; any other event changes nothing and asks for nothing.
pub proof fn law_receiver_has_its_events(state: ReceiverState, event: ReceiverEvent)
    ensures
        ws::next_receiver(state, event).1 is Ignore <==> !match state {
            ReceiverState::Awaiting => is_from_client(event),
            ReceiverState::Locking(_) => event is Locked,
            ReceiverState::Applying => event is Applied,
            ReceiverState::Unlocking => event is Unlocked,
            ReceiverState::Finished => false,
        },
        ws::next_receiver(state, event).1 is Ignore ==> ws::next_receiver(state, event).0 == state,
        state is Awaiting && (event is Close || event is Ended) ==> ws::next_receiver(state, event)
            == (ReceiverState::Finished, ReceiverAction::Finish),
        state matches ReceiverState::Locking(input) ==> ws::next_receiver(
            state,
            ReceiverEvent::Locked,
        ) == (ReceiverState::Applying, ReceiverAction::Apply(input)),
{
}

/// What the sender does with output: each piece is sent as it is, the next one is waited
/// for once it is sent, and a piece that cannot be sent ends the sender.
pub proof fn law_output_takes_its_course(events: Seq<SenderEvent>, bytes: Vec<u8>)
    requires
        sender_run(events).last().0 == SenderState::Awaiting,
    ensures
        ({
            let put_out = events.push(SenderEvent::Output(bytes));
            &&& sender_run(put_out).last().1 == SenderAction::Send(Frame::Output(bytes))
            &&& sender_run(put_out.push(SenderEvent::Sent)).last() == (
                SenderState::Awaiting,
                SenderAction::Await,
            )
            &&& sender_run(put_out.push(SenderEvent::SendFailed)).last() == (
                SenderState::Finished,
                SenderAction::Finish,
            )
        }),
{
    let put_out = events.push(SenderEvent::Output(bytes));
    lemma_sender_push(events, SenderEvent::Output(bytes));
    lemma_sender_push(put_out, SenderEvent::Sent);
    lemma_sender_push(put_out, SenderEvent::SendFailed);
}

/// What the sender does at the end: it takes the session's lock, reads the status, sends the
/// closed frame with the exit code that it read, releases the lock and ends, in this order
/// and whether the frame could be sent or not.
pub proof fn law_goodbye_takes_its_course(
    events: Seq<SenderEvent>,
    end: SenderEvent,
    exit_code: Option<i32>,
    outcome: SenderEvent,
)
    requires
        sender_run(events).last().0 == SenderState::Awaiting,
        end is Closed || end is ShuttingDown,
        outcome is Sent || outcome is SendFailed,
    ensures
        ({
            let e1 = events.push(end);
            let e2 = e1.push(SenderEvent::Locked);
            let e3 = e2.push(SenderEvent::Status { exit_code });
            let e4 = e3.push(outcome);
            let e5 = e4.push(SenderEvent::Unlocked);
            &&& sender_run(e1).last().1 == SenderAction::Lock
            &&& sender_run(e2).last().1 == SenderAction::ReadStatus
            &&& sender_run(e3).last().1 == SenderAction::Send(Frame::Closed(exit_code))
            &&& sender_run(e4).last().1 == SenderAction::Unlock
            &&& sender_run(e5).last() == (SenderState::Finished, SenderAction::Finish)
        }),
{
    let e1 = events.push(end);
    let e2 = e1.push(SenderEvent::Locked);
    let e3 = e2.push(SenderEvent::Status { exit_code });
    let e4 = e3.push(outcome);
    lemma_sender_push(events, end);
    lemma_sender_push(e1, SenderEvent::Locked);
    lemma_sender_push(e2, SenderEvent::Status { exit_code });
    lemma_sender_push(e3, outcome);
    lemma_sender_push(e4, SenderEvent::Unlocked);
}

/// The sender waits for output, a gap in it, its end or the shutdown while it is idle, and
/// otherwise for the end of what it is at; any other event changes nothing and asks for
/// nothing.
pub proof fn law_sender_has_its_events(state: SenderState, event: SenderEvent)
    ensures
        ws::next_sender(state, event).1 is Ignore <==> !match state {
            SenderState::Awaiting => event is Output || event is Lagged || event is Closed
                || event is ShuttingDown,
            SenderState::SendingOutput => event is Sent || event is SendFailed,
            SenderState::SendingWarning => event is Sent || event is SendFailed,
            SenderState::Locking => event is Locked,
            SenderState::ReadingStatus => event is Status,
            SenderState::SendingClosed => event is Sent || event is SendFailed,
            SenderState::Unlocking => event is Unlocked,
            SenderState::Finished => false,
        },
        ws::next_sender(state, event).1 is Ignore ==> ws::next_sender(state, event).0 == state,
{
}

/// A connection takes the session's lock, subscribes, releases the lock, starts its sides,
/// and breaks off the side that is left when one has ended; any other event changes nothing
/// and asks for nothing.
pub proof fn law_connection_takes_its_course(
    state: ConnectionState,
    event: ConnectionEvent,
    side: Side,
)
    ensures
        ws::next_connection(ConnectionState::Locking, ConnectionEvent::Locked) == (
            ConnectionState::Subscribing,
            ConnectionAction::Subscribe,
        ),
        ws::next_connection(ConnectionState::Subscribing, ConnectionEvent::Subscribed) == (
            ConnectionState::Unlocking,
            ConnectionAction::Unlock,
        ),
        ws::next_connection(ConnectionState::Unlocking, ConnectionEvent::Unlocked) == (
            ConnectionState::Running,
            ConnectionAction::Start,
        ),
        ws::next_connection(ConnectionState::Running, ConnectionEvent::SideEnded(side)) == (
            ConnectionState::Ended,
            ConnectionAction::Abort(
                if side == Side::Sender {
                    Side::Receiver
                } else {
                    Side::Sender
                },
            ),
        ),
        ws::next_connection(state, event).1 is Ignore <==> !match state {
            ConnectionState::Locking => event is Locked,
            ConnectionState::Subscribing => event is Subscribed,
            ConnectionState::Unlocking => event is Unlocked,
            ConnectionState::Running => event is SideEnded,
            ConnectionState::Ended => false,
        },
        ws::next_connection(state, event).1 is Ignore ==> ws::next_connection(state, event).0
            == state,
{
}

/// Frames say what they carry, all of it and nothing else. Output is no document. A warning
/// is an object with its type and a message that gives the number of chunks in digits. A
/// closed frame is an object with its type and the exit code, `null` where there is none.
pub proof fn law_frames_say_what_they_carry(bytes: Vec<u8>, n: u64, code: i32)
    ensures
        Frame::Output(bytes).document() is None,
        Frame::Dropped(n).document() == Some(
            Json::Object(
                map![
                    "message"@ => Json::Text(
                        "dropped "@ + number::decimal(n as nat)
                            + " output chunks (slow consumer)"@,
                    ),
                    "type"@ => Json::Text("warning"@),
                ],
            ),
        ),
        Frame::Closed(Some(code)).document() == Some(
            Json::Object(
                map!["exit_code"@ => Json::Int(code as int), "type"@ => Json::Text("closed"@)],
            ),
        ),
        Frame::Closed(None).document() == Some(
            Json::Object(map!["exit_code"@ => Json::Null, "type"@ => Json::Text("closed"@)]),
        ),
{
    reveal_strlit("type");
    reveal_strlit("exit_code");
    reveal_strlit("message");
    assert("type"@.len() == 4);
    assert("exit_code"@.len() == 9);
    assert("message"@.len() == 7);
    assert(Frame::Dropped(n).document().unwrap()->Object_0 =~= map![
        "message"@ => Json::Text(
            "dropped "@ + number::decimal(n as nat) + " output chunks (slow consumer)"@,
        ),
        "type"@ => Json::Text("warning"@),
    ]);
    assert(Frame::Closed(Some(code)).document().unwrap()->Object_0 =~= map![
        "exit_code"@ => Json::Int(code as int),
        "type"@ => Json::Text("closed"@),
    ]);
    assert(Frame::Closed(None).document().unwrap()->Object_0 =~= map![
        "exit_code"@ => Json::Null,
        "type"@ => Json::Text("closed"@),
    ]);
}

} // verus!
