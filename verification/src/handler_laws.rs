//! What holds of every request, whatever comes of its actions and in whatever
//! order.

use crate::handler;
use crate::handler::{
    After, HandlerAction, HandlerEvent, HandlerState, Pending, Request, ResizeRequest,
    ScrollbackParams, SendRequest, SessionCall,
};
use crate::range;
use crate::reply;
use crate::reply::{Answer, SessionStatus, StopOutcome};
use crate::routes::Endpoint;
use crate::screen;
use crate::screen::{ScreenFormat, ScreenOpts, ScreenParams};
use crate::wait;
use crate::wait::{WaitCondition, WaitParams, WaitPlan};
use std::time::Duration;
use vstd::prelude::*;

verus! {

/// One step: the state that was reached, and the action that it asks for.
pub type Step = (HandlerState, HandlerAction);

/// The steps of a request under a row of events, the first one before any event.
pub open spec fn run(request: Request, events: Seq<HandlerEvent>) -> Seq<Step>
    decreases events.len(),
{
    if events.len() == 0 {
        seq![handler::first_step(request)]
    } else {
        let before = run(request, events.drop_last());
        before.push(handler::next_step(before.last().0, events.last()))
    }
}

/// The event is one that the state waits for.
pub open spec fn is_due(state: HandlerState, event: HandlerEvent) -> bool {
    !(handler::next_step(state, event).1 is Ignore)
}

/// The session's lock is held: it has been obtained and not been released since.
pub open spec fn lock_held(request: Request, events: Seq<HandlerEvent>) -> bool
    decreases events.len(),
{
    if events.len() == 0 {
        false
    } else {
        let earlier = events.drop_last();
        let event = events.last();
        if !is_due(run(request, earlier).last().0, event) {
            lock_held(request, earlier)
        } else if event is Locked {
            true
        } else if event is Unlocked {
            false
        } else {
            lock_held(request, earlier)
        }
    }
}

proof fn lemma_run_len(request: Request, events: Seq<HandlerEvent>)
    ensures
        run(request, events).len() == events.len() + 1,
    decreases events.len(),
{
    if events.len() > 0 {
        lemma_run_len(request, events.drop_last());
    }
}

/// The states in which the lock is held are those of a call and of its release.
proof fn lemma_lock_held(request: Request, events: Seq<HandlerEvent>)
    ensures
        run(request, events).len() == events.len() + 1,
        lock_held(request, events) == {
            let state = run(request, events).last().0;
            state is Calling || state is Unlocking
        },
    decreases events.len(),
{
    lemma_run_len(request, events);
    if events.len() > 0 {
        lemma_lock_held(request, events.drop_last());
    }
}

/// The session is called with its lock held. Waiting, stopping and answering are
/// done without it, from their first step to their last, so nobody else is kept from
/// the session meanwhile. The lock is not asked for while it is held, and released
/// only while it is.
pub proof fn law_lock_discipline(request: Request, events: Seq<HandlerEvent>)
    ensures
        match run(request, events).last().1 {
            HandlerAction::Lock => !lock_held(request, events),
            HandlerAction::Call(_) => lock_held(request, events),
            HandlerAction::Unlock => lock_held(request, events),
            HandlerAction::WaitFor(_) => !lock_held(request, events),
            HandlerAction::Stop(_) => !lock_held(request, events),
            HandlerAction::Respond(_) => !lock_held(request, events),
            HandlerAction::Ignore => true,
        },
        match run(request, events).last().0 {
            HandlerState::Locking { .. } => !lock_held(request, events),
            HandlerState::Calling(_) => lock_held(request, events),
            HandlerState::Unlocking(_) => lock_held(request, events),
            HandlerState::Waiting => !lock_held(request, events),
            HandlerState::Stopping => !lock_held(request, events),
            HandlerState::Answered => !lock_held(request, events),
        },
{
    lemma_lock_held(request, events);
    if events.len() > 0 {
        lemma_lock_held(request, events.drop_last());
    }
}

/// How many events lie before the answer, once a call has been made.
pub open spec fn left_after_call(pending: Pending) -> nat {
    match pending {
        Pending::WaitHandle(_) => 3,
        Pending::StopHandle(_) => 6,
        _ => 2,
    }
}

/// How many events lie before the answer.
pub open spec fn events_left(state: HandlerState) -> nat {
    match state {
        HandlerState::Locking { pending, .. } => left_after_call(pending) + 1,
        HandlerState::Calling(pending) => left_after_call(pending),
        HandlerState::Unlocking(After::Respond(_)) => 1,
        HandlerState::Unlocking(After::WaitFor(_)) => 2,
        HandlerState::Unlocking(After::Stop(_)) => 5,
        HandlerState::Waiting => 1,
        HandlerState::Stopping => 4,
        HandlerState::Answered => 0,
    }
}

/// Every event that is due brings the answer one event closer; any other changes
/// nothing. The answer comes with the last event that is due, and after it no
/// event is.
pub proof fn law_progress(state: HandlerState, event: HandlerEvent)
    ensures
        is_due(state, event) ==> events_left(handler::next_step(state, event).0) + 1 == events_left(state),
        !is_due(state, event) ==> handler::next_step(state, event).0 == state,
        handler::next_step(state, event).1 is Respond <==> is_due(state, event) && events_left(state) == 1,
        events_left(state) == 0 <==> state is Answered,
        state is Answered ==> !is_due(state, event),
{
}

/// As long as a request has not been answered there is an event that it waits for.
pub proof fn law_never_stuck(state: HandlerState)
    requires
        !(state is Answered),
    ensures
        exists|event: HandlerEvent| is_due(state, event),
{
    let event = match state {
        HandlerState::Locking { .. } => HandlerEvent::Locked,
        HandlerState::Calling(pending) => match pending {
            Pending::Screen => HandlerEvent::Screen(arbitrary()),
            Pending::ScreenStyled => HandlerEvent::ScreenStyled(arbitrary()),
            Pending::ScreenHtml => HandlerEvent::ScreenHtml(arbitrary()),
            Pending::Cursor => HandlerEvent::Cursor { row: 1, col: 1 },
            Pending::Status => HandlerEvent::Status(arbitrary()),
            Pending::Scrollback => HandlerEvent::Scrollback(arbitrary()),
            Pending::SendKeys => HandlerEvent::KeysSent(Ok(())),
            Pending::Resize => HandlerEvent::Resized(Ok(())),
            Pending::WaitHandle(_) => HandlerEvent::HandleTaken,
            Pending::StopHandle(_) => HandlerEvent::HandleTaken,
            Pending::BasicStatus(_) => HandlerEvent::BasicStatus { alive: true, exit_code: None },
        },
        HandlerState::Unlocking(_) => HandlerEvent::Unlocked,
        HandlerState::Waiting => HandlerEvent::WaitEnded(Ok(arbitrary())),
        HandlerState::Stopping => HandlerEvent::StopEnded(arbitrary()),
        HandlerState::Answered => HandlerEvent::Locked,
    };
    assert(is_due(state, event));
}

/// The actions of a request, one after the other.
pub open spec fn actions(request: Request, events: Seq<HandlerEvent>) -> Seq<HandlerAction> {
    Seq::new(run(request, events).len(), |i: int| run(request, events)[i].1)
}

/// The steps that a row of events is made of, when one more event comes.
proof fn lemma_run_push(request: Request, events: Seq<HandlerEvent>, event: HandlerEvent)
    ensures
        run(request, events.push(event)) == run(request, events).push(
            handler::next_step(run(request, events).last().0, event),
        ),
{
    assert(events.push(event).drop_last() == events);
}

/// A request that needs one call is served by that call: it is answered with what
/// the session gave, and the session is locked for the call alone.
pub proof fn law_one_call(request: Request, result: HandlerEvent)
    requires
        handler::first_call(request) is Some,
        handler::after_call(handler::first_call(request).unwrap().1, result) is Some,
        handler::after_call(handler::first_call(request).unwrap().1, result).unwrap() is Respond,
    ensures
        actions(request, seq![HandlerEvent::Locked, result, HandlerEvent::Unlocked]) == seq![
            HandlerAction::Lock,
            HandlerAction::Call(handler::first_call(request).unwrap().0),
            HandlerAction::Unlock,
            HandlerAction::Respond(
                handler::after_call(handler::first_call(request).unwrap().1, result).unwrap()->Respond_0,
            ),
        ],
{
    let none = Seq::<HandlerEvent>::empty();
    lemma_run_push(request, none, HandlerEvent::Locked);
    lemma_run_push(request, none.push(HandlerEvent::Locked), result);
    lemma_run_push(request, none.push(HandlerEvent::Locked).push(result), HandlerEvent::Unlocked);
    assert(seq![HandlerEvent::Locked, result, HandlerEvent::Unlocked] == none.push(
        HandlerEvent::Locked,
    ).push(result).push(HandlerEvent::Unlocked));
}

/// A wait for one condition takes a handle under the lock, waits on it without the
/// lock, and is answered with what came of it. Running into the timeout is an
/// outcome like any other: only a wait that cannot be run is refused.
pub proof fn law_wait(params: WaitParams, result: Result<String, String>)
    requires
        params.asked_plan() is Some,
    ensures
        actions(
            Request::Wait(params),
            seq![
                HandlerEvent::Locked,
                HandlerEvent::HandleTaken,
                HandlerEvent::Unlocked,
                HandlerEvent::WaitEnded(result),
            ],
        ) == seq![
            HandlerAction::Lock,
            HandlerAction::Call(SessionCall::WaitHandle),
            HandlerAction::Unlock,
            HandlerAction::WaitFor(params.asked_plan().unwrap()),
            HandlerAction::Respond(handler::waited_answer(result)),
        ],
        handler::waited_answer(result).status() == reply::STATUS_OK <==> result is Ok,
        result is Err ==> handler::waited_answer(result).status() == reply::STATUS_BAD_REQUEST,
{
    let request = Request::Wait(params);
    let none = Seq::<HandlerEvent>::empty();
    let locked = none.push(HandlerEvent::Locked);
    let taken = locked.push(HandlerEvent::HandleTaken);
    let unlocked = taken.push(HandlerEvent::Unlocked);
    lemma_run_push(request, none, HandlerEvent::Locked);
    lemma_run_push(request, locked, HandlerEvent::HandleTaken);
    lemma_run_push(request, taken, HandlerEvent::Unlocked);
    lemma_run_push(request, unlocked, HandlerEvent::WaitEnded(result));
    assert(seq![
        HandlerEvent::Locked,
        HandlerEvent::HandleTaken,
        HandlerEvent::Unlocked,
        HandlerEvent::WaitEnded(result),
    ] == unlocked.push(HandlerEvent::WaitEnded(result)));
}

/// Keys that the session refuses are the request's fault, a size that it fails to
/// set is the server's; all else is success.
pub proof fn law_results_decide_the_status(result: Result<(), String>)
    ensures
        handler::sent_answer(result).status() == if result is Ok {
            reply::STATUS_OK
        } else {
            reply::STATUS_BAD_REQUEST
        },
        handler::resized_answer(result).status() == if result is Ok {
            reply::STATUS_OK
        } else {
            reply::STATUS_INTERNAL_SERVER_ERROR
        },
{
}

/// A wait that sets no condition or several is refused as a usage error, and the
/// session is left alone.
pub proof fn law_wait_usage(params: WaitParams)
    ensures
        params.conditions().len() != 1 <==> handler::first_step(Request::Wait(params)) == (
            HandlerState::Answered,
            HandlerAction::Respond(Answer::WaitUsage),
        ),
        Answer::WaitUsage.status() == reply::STATUS_BAD_REQUEST,
{
}

/// A stop takes a handle under the lock, stops the child without the lock and with
/// the grace that it was given, then reads under the lock again what became of the
/// child, and answers with both.
pub proof fn law_stop(
    grace: Duration,
    outcome: StopOutcome,
    alive: bool,
    exit_code: Option<i32>,
)
    ensures
        actions(
            (Request::Stop { grace }),
            seq![
                HandlerEvent::Locked,
                HandlerEvent::HandleTaken,
                HandlerEvent::Unlocked,
                HandlerEvent::StopEnded(outcome),
                HandlerEvent::Locked,
                HandlerEvent::BasicStatus { alive, exit_code },
                HandlerEvent::Unlocked,
            ],
        ) == seq![
            HandlerAction::Lock,
            HandlerAction::Call(SessionCall::StopHandle),
            HandlerAction::Unlock,
            HandlerAction::Stop(grace),
            HandlerAction::Lock,
            HandlerAction::Call(SessionCall::BasicStatus),
            HandlerAction::Unlock,
            HandlerAction::Respond(Answer::Stopped { outcome, alive, exit_code }),
        ],
{
    let request = Request::Stop { grace };
    let e0 = Seq::<HandlerEvent>::empty();
    let e1 = e0.push(HandlerEvent::Locked);
    let e2 = e1.push(HandlerEvent::HandleTaken);
    let e3 = e2.push(HandlerEvent::Unlocked);
    let e4 = e3.push(HandlerEvent::StopEnded(outcome));
    let e5 = e4.push(HandlerEvent::Locked);
    let e6 = e5.push(HandlerEvent::BasicStatus { alive, exit_code });
    lemma_run_push(request, e0, HandlerEvent::Locked);
    lemma_run_push(request, e1, HandlerEvent::HandleTaken);
    lemma_run_push(request, e2, HandlerEvent::Unlocked);
    lemma_run_push(request, e3, HandlerEvent::StopEnded(outcome));
    lemma_run_push(request, e4, HandlerEvent::Locked);
    lemma_run_push(request, e5, HandlerEvent::BasicStatus { alive, exit_code });
    lemma_run_push(request, e6, HandlerEvent::Unlocked);
    assert(seq![
        HandlerEvent::Locked,
        HandlerEvent::HandleTaken,
        HandlerEvent::Unlocked,
        HandlerEvent::StopEnded(outcome),
        HandlerEvent::Locked,
        HandlerEvent::BasicStatus { alive, exit_code },
        HandlerEvent::Unlocked,
    ] == e6.push(HandlerEvent::Unlocked));
}

/// What an endpoint may ask of the session.
pub open spec fn is_asked_at(endpoint: Endpoint, call: SessionCall) -> bool {
    match endpoint {
        Endpoint::Screen => call is Screen || call is ScreenStyled || call is ScreenHtml,
        Endpoint::Cursor => call is Cursor,
        Endpoint::Status => call is Status,
        Endpoint::Scrollback => call is Scrollback,
        Endpoint::Wait => call is WaitHandle,
        Endpoint::Send => call is SendKeys,
        Endpoint::Resize => call is Resize,
        Endpoint::Stop => call is StopHandle || call is BasicStatus,
        Endpoint::Socket => false,
    }
}

/// What an endpoint may answer.
pub open spec fn is_answered_at(endpoint: Endpoint, answer: Answer) -> bool {
    match endpoint {
        Endpoint::Screen => answer is Screen || answer is ScreenHtml,
        Endpoint::Cursor => answer is Cursor,
        Endpoint::Status => answer is Status,
        Endpoint::Scrollback => answer is Scrollback,
        Endpoint::Wait => answer is Waited || answer is WaitUsage || answer is Refused,
        Endpoint::Send => answer is Done || answer is Refused,
        Endpoint::Resize => answer is Done || answer is Failed,
        Endpoint::Stop => answer is Stopped,
        Endpoint::Socket => false,
    }
}

/// The wait is the one that the request asks for.
pub open spec fn is_asked_wait(request: Request, plan: WaitPlan) -> bool {
    match request {
        Request::Wait(params) => params.asked_plan() == Some(plan),
        _ => false,
    }
}

/// The result is one that the request makes due.
spec fn is_expected(request: Request, pending: Pending) -> bool {
    let endpoint = request.spec_endpoint();
    match pending {
        Pending::Screen => endpoint == Endpoint::Screen,
        Pending::ScreenStyled => endpoint == Endpoint::Screen,
        Pending::ScreenHtml => endpoint == Endpoint::Screen,
        Pending::Cursor => endpoint == Endpoint::Cursor,
        Pending::Status => endpoint == Endpoint::Status,
        Pending::Scrollback => endpoint == Endpoint::Scrollback,
        Pending::SendKeys => endpoint == Endpoint::Send,
        Pending::Resize => endpoint == Endpoint::Resize,
        Pending::WaitHandle(plan) => is_asked_wait(request, plan),
        Pending::StopHandle(grace) => request == (Request::Stop { grace }),
        Pending::BasicStatus(_) => endpoint == Endpoint::Stop,
    }
}

/// The state is one that the request comes through.
spec fn is_reached(request: Request, state: HandlerState) -> bool {
    let endpoint = request.spec_endpoint();
    match state {
        HandlerState::Locking { call, pending } => is_asked_at(endpoint, call) && is_expected(
            request,
            pending,
        ),
        HandlerState::Calling(pending) => is_expected(request, pending),
        HandlerState::Unlocking(After::Respond(answer)) => is_answered_at(endpoint, answer),
        HandlerState::Unlocking(After::WaitFor(plan)) => is_asked_wait(request, plan),
        HandlerState::Unlocking(After::Stop(grace)) => request == (Request::Stop { grace }),
        HandlerState::Waiting => endpoint == Endpoint::Wait,
        HandlerState::Stopping => endpoint == Endpoint::Stop,
        HandlerState::Answered => true,
    }
}

proof fn lemma_reached(request: Request, events: Seq<HandlerEvent>)
    ensures
        is_reached(request, run(request, events).last().0),
    decreases events.len(),
{
    if events.len() > 0 {
        lemma_reached(request, events.drop_last());
    }
}

/// An endpoint serves its own requests: what is asked of the session, and what is
/// answered, is what the endpoint is there for, whatever the session gives back.
/// Only a wait waits, for what it was asked to and as long, and only a stop stops
/// the child, with the grace that it was given.
pub proof fn law_endpoint_serves_its_requests(request: Request, events: Seq<HandlerEvent>)
    ensures
        request.spec_endpoint() != Endpoint::Socket,
        match run(request, events).last().1 {
            HandlerAction::Call(call) => is_asked_at(request.spec_endpoint(), call),
            HandlerAction::Respond(answer) => is_answered_at(request.spec_endpoint(), answer),
            HandlerAction::WaitFor(plan) => is_asked_wait(request, plan),
            HandlerAction::Stop(grace) => request == (Request::Stop { grace }),
            _ => true,
        },
{
    if events.len() > 0 {
        lemma_reached(request, events.drop_last());
    }
}

/// The wait or the stop of a request has begun.
spec fn has_begun(state: HandlerState) -> bool {
    match state {
        HandlerState::Locking { pending, .. } => pending is BasicStatus,
        HandlerState::Calling(pending) => pending is BasicStatus,
        HandlerState::Unlocking(after) => after is Respond,
        _ => true,
    }
}

proof fn lemma_stays_begun(request: Request, events: Seq<HandlerEvent>, k: int)
    requires
        0 <= k <= events.len(),
        run(request, events)[k].1 is WaitFor || run(request, events)[k].1 is Stop,
    ensures
        has_begun(run(request, events).last().0),
    decreases events.len(),
{
    lemma_run_len(request, events);
    if events.len() > 0 {
        lemma_run_len(request, events.drop_last());
        if k < events.len() {
            lemma_stays_begun(request, events.drop_last(), k);
        }
    }
}

/// A request waits once at most, and stops the child once at most.
pub proof fn law_waits_and_stops_once(request: Request, events: Seq<HandlerEvent>, i: int, k: int)
    requires
        0 <= i < k <= events.len(),
        run(request, events)[i].1 is WaitFor || run(request, events)[i].1 is Stop,
    ensures
        !(run(request, events)[k].1 is WaitFor),
        !(run(request, events)[k].1 is Stop),
    decreases events.len(),
{
    let earlier = events.drop_last();
    lemma_run_len(request, events);
    lemma_run_len(request, earlier);
    if k < events.len() {
        law_waits_and_stops_once(request, earlier, i, k);
    } else {
        lemma_stays_begun(request, earlier, i);
    }
}

/// The event is the result of the call that is under way.
pub open spec fn is_result_of(pending: Pending, event: HandlerEvent) -> bool {
    match pending {
        Pending::Screen => event is Screen,
        Pending::ScreenStyled => event is ScreenStyled,
        Pending::ScreenHtml => event is ScreenHtml,
        Pending::Cursor => event is Cursor,
        Pending::Status => event is Status,
        Pending::Scrollback => event is Scrollback,
        Pending::SendKeys => event is KeysSent,
        Pending::Resize => event is Resized,
        Pending::WaitHandle(_) => event is HandleTaken,
        Pending::StopHandle(_) => event is HandleTaken,
        Pending::BasicStatus(_) => event is BasicStatus,
    }
}

/// An action is answered by its own event and by no other: a lock that was asked for by
/// its being held, a call by its result, whatever that is, a release by its being done,
/// a wait and a stop by their ends. Any other event changes nothing and asks for
/// nothing, and an answered request waits for none.
pub proof fn law_actions_have_their_events(state: HandlerState, event: HandlerEvent)
    ensures
        is_due(state, event) <==> match state {
            HandlerState::Locking { .. } => event is Locked,
            HandlerState::Calling(pending) => is_result_of(pending, event),
            HandlerState::Unlocking(_) => event is Unlocked,
            HandlerState::Waiting => event is WaitEnded,
            HandlerState::Stopping => event is StopEnded,
            HandlerState::Answered => false,
        },
        !is_due(state, event) ==> handler::next_step(state, event) == (
            state,
            HandlerAction::Ignore,
        ),
{
}

/// Once the lock is held, the call that it was taken for is made, and its result is the
/// one that is then waited for. A result is followed by the release of the lock, and the
/// release by what the result called for.
pub proof fn law_calls_are_made_as_planned(
    call: SessionCall,
    pending: Pending,
    event: HandlerEvent,
    after: After,
)
    ensures
        handler::next_step(HandlerState::Locking { call, pending }, HandlerEvent::Locked) == (
            HandlerState::Calling(pending),
            HandlerAction::Call(call),
        ),
        is_result_of(pending, event) ==> {
            let step = handler::next_step(HandlerState::Calling(pending), event);
            step.0 is Unlocking && step.1 == HandlerAction::Unlock
        },
        handler::next_step(HandlerState::Unlocking(after), HandlerEvent::Unlocked) == match after {
            After::Respond(answer) => (HandlerState::Answered, HandlerAction::Respond(answer)),
            After::WaitFor(plan) => (HandlerState::Waiting, HandlerAction::WaitFor(plan)),
            After::Stop(grace) => (HandlerState::Stopping, HandlerAction::Stop(grace)),
        },
{
}

/// A request for the cursor is answered with where the session says it is, unchanged.
pub proof fn law_cursor_is_answered(row: usize, col: usize)
    ensures
        actions(
            Request::Cursor,
            seq![HandlerEvent::Locked, HandlerEvent::Cursor { row, col }, HandlerEvent::Unlocked],
        ) == seq![
            HandlerAction::Lock,
            HandlerAction::Call(SessionCall::Cursor),
            HandlerAction::Unlock,
            HandlerAction::Respond(Answer::Cursor { row, col }),
        ],
{
    law_one_call(Request::Cursor, HandlerEvent::Cursor { row, col });
}

/// A request for the status is answered with the status that the session gives,
/// unchanged.
pub proof fn law_status_is_answered(status: SessionStatus)
    ensures
        actions(
            Request::Status,
            seq![HandlerEvent::Locked, HandlerEvent::Status(status), HandlerEvent::Unlocked],
        ) == seq![
            HandlerAction::Lock,
            HandlerAction::Call(SessionCall::Status),
            HandlerAction::Unlock,
            HandlerAction::Respond(Answer::Status(status)),
        ],
{
    law_one_call(Request::Status, HandlerEvent::Status(status));
}

/// A request for scrollback asks for as many lines as it says, a hundred where it does
/// not say, and is answered with the lines that the session gives, unchanged.
pub proof fn law_scrollback_is_answered(params: ScrollbackParams, lines: Vec<String>)
    ensures
        actions(
            Request::Scrollback(params),
            seq![HandlerEvent::Locked, HandlerEvent::Scrollback(lines), HandlerEvent::Unlocked],
        ) == seq![
            HandlerAction::Lock,
            HandlerAction::Call(
                SessionCall::Scrollback(
                    if params.lines is Some {
                        params.lines.unwrap()
                    } else {
                        100
                    },
                ),
            ),
            HandlerAction::Unlock,
            HandlerAction::Respond(Answer::Scrollback(lines)),
        ],
{
    law_one_call(Request::Scrollback(params), HandlerEvent::Scrollback(lines));
}

/// The options are those that the parameters ask for, each by its own parameter.
pub open spec fn are_asked(opts: ScreenOpts, params: ScreenParams) -> bool {
    &&& opts.rows == if params.rows is Some {
        range::range_value(params.rows.unwrap()@)
    } else {
        None
    }
    &&& opts.cols == if params.cols is Some {
        range::range_value(params.cols.unwrap()@)
    } else {
        None
    }
    &&& opts.cursor_char == params.cursor
    &&& opts.include_empty == (params.full == Some(true))
}

/// A request for the screen asks the session to draw it with the options of its
/// parameters, styled where "styled" is asked for, as a page where "html" is, and as text
/// otherwise, and is answered with what the session drew, unchanged.
pub proof fn law_screen_is_answered(params: ScreenParams, drawn: String)
    ensures
        exists|opts: ScreenOpts| #[trigger]
            are_asked(opts, params) && if params.format is Some && params.format.unwrap()@
                == "styled"@ {
                actions(
                    Request::Screen(params),
                    seq![
                        HandlerEvent::Locked,
                        HandlerEvent::ScreenStyled(drawn),
                        HandlerEvent::Unlocked,
                    ],
                ) == seq![
                    HandlerAction::Lock,
                    HandlerAction::Call(SessionCall::ScreenStyled(opts)),
                    HandlerAction::Unlock,
                    HandlerAction::Respond(Answer::Screen(drawn)),
                ]
            } else if params.format is Some && params.format.unwrap()@ == "html"@ {
                actions(
                    Request::Screen(params),
                    seq![
                        HandlerEvent::Locked,
                        HandlerEvent::ScreenHtml(drawn),
                        HandlerEvent::Unlocked,
                    ],
                ) == seq![
                    HandlerAction::Lock,
                    HandlerAction::Call(SessionCall::ScreenHtml(opts)),
                    HandlerAction::Unlock,
                    HandlerAction::Respond(Answer::ScreenHtml(drawn)),
                ]
            } else {
                actions(
                    Request::Screen(params),
                    seq![
                        HandlerEvent::Locked,
                        HandlerEvent::Screen(drawn),
                        HandlerEvent::Unlocked,
                    ],
                ) == seq![
                    HandlerAction::Lock,
                    HandlerAction::Call(SessionCall::Screen(opts)),
                    HandlerAction::Unlock,
                    HandlerAction::Respond(Answer::Screen(drawn)),
                ]
            },
{
    let request = Request::Screen(params);
    let opts = params.asked_opts();
    screen::law_options_come_from_their_parameters(params);
    screen::law_format_is_named(params);
    assert(are_asked(opts, params));
    match params.asked_format() {
        ScreenFormat::Text => law_one_call(request, HandlerEvent::Screen(drawn)),
        ScreenFormat::Styled => law_one_call(request, HandlerEvent::ScreenStyled(drawn)),
        ScreenFormat::Html => law_one_call(request, HandlerEvent::ScreenHtml(drawn)),
    }
}

/// Keys are sent as they were written; the request is done where the session took them,
/// and refused with what the session says where it did not.
pub proof fn law_keys_are_sent(request: SendRequest, result: Result<(), String>)
    ensures
        actions(
            Request::Send(request),
            seq![HandlerEvent::Locked, HandlerEvent::KeysSent(result), HandlerEvent::Unlocked],
        ) == seq![
            HandlerAction::Lock,
            HandlerAction::Call(SessionCall::SendKeys(request.keys)),
            HandlerAction::Unlock,
            HandlerAction::Respond(
                if result is Ok {
                    Answer::Done
                } else {
                    Answer::Refused(result->Err_0)
                },
            ),
        ],
{
    law_one_call(Request::Send(request), HandlerEvent::KeysSent(result));
}

/// The terminal is given the columns and rows that were asked for; the request is done
/// where the session did so, and has failed with what the session says where it did not.
pub proof fn law_size_is_set(request: ResizeRequest, result: Result<(), String>)
    ensures
        actions(
            Request::Resize(request),
            seq![HandlerEvent::Locked, HandlerEvent::Resized(result), HandlerEvent::Unlocked],
        ) == seq![
            HandlerAction::Lock,
            HandlerAction::Call(SessionCall::Resize { cols: request.cols, rows: request.rows }),
            HandlerAction::Unlock,
            HandlerAction::Respond(
                if result is Ok {
                    Answer::Done
                } else {
                    Answer::Failed(result->Err_0)
                },
            ),
        ],
{
    law_one_call(Request::Resize(request), HandlerEvent::Resized(result));
}

/// How many of its conditions a wait sets.
pub open spec fn conditions_set(params: WaitParams) -> int {
    let text: int = if params.text is Some {
        1
    } else {
        0
    };
    let regex: int = if params.regex is Some {
        1
    } else {
        0
    };
    let gone: int = if params.gone is Some {
        1
    } else {
        0
    };
    let stable: int = if params.stable_ms is Some {
        1
    } else {
        0
    };
    text + regex + gone + stable
}

/// The plan waits for the condition that is set, and as long as is asked.
pub open spec fn is_plan_of(plan: WaitPlan, params: WaitParams) -> bool {
    &&& params.text matches Some(s) ==> plan.condition == WaitCondition::Text(s)
    &&& params.regex matches Some(s) ==> plan.condition == WaitCondition::Regex(s)
    &&& params.gone matches Some(s) ==> plan.condition == WaitCondition::Gone(s)
    &&& params.stable_ms matches Some(ms) ==> plan.condition == WaitCondition::StableMs(ms)
    &&& params.timeout_ms is None ==> plan.timeout_ms == 10_000
    &&& params.timeout_ms matches Some(ms) ==> ms <= 120_000 ==> plan.timeout_ms == ms
    &&& params.timeout_ms matches Some(ms) ==> ms > 120_000 ==> plan.timeout_ms == 120_000
}

/// A wait that sets one condition is run for this condition and as long as it asks, and
/// is answered with what came of it, unchanged. Any other is answered at once, as a usage
/// error, and does not touch the session.
pub proof fn law_wait_is_answered(params: WaitParams, result: Result<String, String>)
    ensures
        conditions_set(params) == 1 ==> exists|plan: WaitPlan| #[trigger]
            is_plan_of(plan, params) && actions(
                Request::Wait(params),
                seq![
                    HandlerEvent::Locked,
                    HandlerEvent::HandleTaken,
                    HandlerEvent::Unlocked,
                    HandlerEvent::WaitEnded(result),
                ],
            ) == seq![
                HandlerAction::Lock,
                HandlerAction::Call(SessionCall::WaitHandle),
                HandlerAction::Unlock,
                HandlerAction::WaitFor(plan),
                HandlerAction::Respond(
                    if result is Ok {
                        Answer::Waited(result->Ok_0)
                    } else {
                        Answer::Refused(result->Err_0)
                    },
                ),
            ],
        conditions_set(params) != 1 ==> handler::first_step(Request::Wait(params)) == (
            HandlerState::Answered,
            HandlerAction::Respond(Answer::WaitUsage),
        ),
{
    wait::law_exactly_one_condition(params);
    wait::law_wait_lasts_as_asked(params);
    if conditions_set(params) == 1 {
        assert(is_plan_of(params.asked_plan().unwrap(), params));
        law_wait(params, result);
    }
}

/// Requests begin with the lock, and stay as they are until it is held.
pub proof fn law_requests_begin_with_the_lock(request: Request)
    requires
        request matches Request::Wait(params) ==> conditions_set(params) == 1,
    ensures
        handler::first_step(request).1 == HandlerAction::Lock,
        handler::first_step(request).0 is Locking,
{
}

/// Each kind of request has its endpoint, whatever the request says.
pub proof fn law_requests_have_their_endpoints(request: Request)
    ensures
        request.spec_endpoint() == Endpoint::Screen <==> request is Screen,
        request.spec_endpoint() == Endpoint::Cursor <==> request is Cursor,
        request.spec_endpoint() == Endpoint::Status <==> request is Status,
        request.spec_endpoint() == Endpoint::Scrollback <==> request is Scrollback,
        request.spec_endpoint() == Endpoint::Wait <==> request is Wait,
        request.spec_endpoint() == Endpoint::Send <==> request is Send,
        request.spec_endpoint() == Endpoint::Resize <==> request is Resize,
        request.spec_endpoint() == Endpoint::Stop <==> request is Stop,
{
}

/// The events of a row that were waited for when they came.
pub open spec fn due_events(request: Request, events: Seq<HandlerEvent>) -> Seq<HandlerEvent>
    decreases events.len(),
{
    if events.len() == 0 {
        Seq::empty()
    } else {
        let earlier = due_events(request, events.drop_last());
        if is_due(run(request, events.drop_last()).last().0, events.last()) {
            earlier.push(events.last())
        } else {
            earlier
        }
    }
}

/// Events that nobody waits for leave no trace: a request comes as far as the events that
/// were waited for bring it, whatever else comes between them.
pub proof fn law_noise_leaves_no_trace(request: Request, events: Seq<HandlerEvent>)
    ensures
        run(request, events).last().0 == run(request, due_events(request, events)).last().0,
        events.len() > 0 && is_due(run(request, events.drop_last()).last().0, events.last())
            ==> run(request, events).last() == run(request, due_events(request, events)).last(),
    decreases events.len(),
{
    if events.len() > 0 {
        let earlier = events.drop_last();
        law_noise_leaves_no_trace(request, earlier);
        law_actions_have_their_events(run(request, earlier).last().0, events.last());
        lemma_run_push(request, due_events(request, earlier), events.last());
    }
}

} // verus!
