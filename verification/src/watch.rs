//! Waiting until a flag that someone else sets is true.

use vstd::prelude::*;

verus! {

/// How far the wait has come.
#[derive(Debug, Clone, Copy, PartialEq, Eq, Structural)]
pub enum WatchState {
    /// The flag is being read.
    Reading,
    /// A change of the flag is waited for.
    AwaitingChange,
    /// The wait is over.
    Resolved,
}

/// What is to be done next.
#[derive(Debug, Clone, Copy, PartialEq, Eq, Structural)]
pub enum WatchAction {
    /// Read the flag, and take note of the reading.
    Read,
    /// Wait until the flag is set again after the last reading.
    AwaitChange,
    /// End the wait.
    Resolve,
    /// Nothing: the event is none that was waited for.
    Ignore,
}

/// What came of it.
#[derive(Debug, Clone, Copy, PartialEq, Eq, Structural)]
pub enum WatchEvent {
    /// The flag was read.
    Value(bool),
    /// The flag was set again.
    Changed,
    /// Whoever sets the flag is gone.
    SenderGone,
}

/// The step that an event leads to.
pub open spec fn next_watch(state: WatchState, event: WatchEvent) -> (WatchState, WatchAction) {
    match (state, event) {
        (WatchState::Reading, WatchEvent::Value(true)) => (
            WatchState::Resolved,
            WatchAction::Resolve,
        ),
        (WatchState::Reading, WatchEvent::Value(false)) => (
            WatchState::AwaitingChange,
            WatchAction::AwaitChange,
        ),
        (WatchState::AwaitingChange, WatchEvent::Changed) => (
            WatchState::Reading,
            WatchAction::Read,
        ),
        (WatchState::AwaitingChange, WatchEvent::SenderGone) => (
            WatchState::Resolved,
            WatchAction::Resolve,
        ),
        _ => (state, WatchAction::Ignore),
    }
}

/// Begins to wait.
pub fn watch() -> (step: (WatchState, WatchAction))
    ensures
        step == (WatchState::Reading, WatchAction::Read),
{
    (WatchState::Reading, WatchAction::Read)
}

/// Goes on waiting with what came of the last action. Nothing will ever set a flag
/// whose sender is gone; that counts as "now", so that nobody waits forever.
pub fn advance_watch(state: WatchState, event: WatchEvent) -> (step: (WatchState, WatchAction))
    ensures
        step == next_watch(state, event),
{
    match (state, event) {
        (WatchState::Reading, WatchEvent::Value(value)) => if value {
            (WatchState::Resolved, WatchAction::Resolve)
        } else {
            (WatchState::AwaitingChange, WatchAction::AwaitChange)
        },
        (WatchState::AwaitingChange, WatchEvent::Changed) => (
            WatchState::Reading,
            WatchAction::Read,
        ),
        (WatchState::AwaitingChange, WatchEvent::SenderGone) => (
            WatchState::Resolved,
            WatchAction::Resolve,
        ),
        _ => (state, WatchAction::Ignore),
    }
}

/// The state after a row of events.
pub open spec fn watched(events: Seq<WatchEvent>) -> WatchState
    decreases events.len(),
{
    if events.len() == 0 {
        WatchState::Reading
    } else {
        next_watch(watched(events.drop_last()), events.last()).0
    }
}

/// A wait ends only because the flag was read as true or its sender is gone.
pub proof fn law_resolves_for_a_reason(events: Seq<WatchEvent>)
    requires
        watched(events) == WatchState::Resolved,
    ensures
        exists|i: int|
            0 <= i < events.len() && (#[trigger] events[i] == WatchEvent::Value(true)
                || events[i] == WatchEvent::SenderGone),
    decreases events.len(),
{
    let earlier = events.drop_last();
    if watched(earlier) == WatchState::Resolved {
        law_resolves_for_a_reason(earlier);
        let i = choose|i: int|
            0 <= i < earlier.len() && (#[trigger] earlier[i] == WatchEvent::Value(true)
                || earlier[i] == WatchEvent::SenderGone);
        assert(events[i] == earlier[i]);
    } else {
        assert(events[events.len() - 1] == events.last());
    }
}

/// A wait ends as soon as the flag is read as true, and as soon as it is waiting
/// for a change that will never come.
pub proof fn law_resolves_at_once(events: Seq<WatchEvent>)
    ensures
        watched(events) == WatchState::Reading ==> watched(events.push(WatchEvent::Value(true)))
            == WatchState::Resolved,
        watched(events) == WatchState::AwaitingChange ==> watched(
            events.push(WatchEvent::SenderGone),
        ) == WatchState::Resolved,
{
    assert(events.push(WatchEvent::Value(true)).drop_last() == events);
    assert(events.push(WatchEvent::SenderGone).drop_last() == events);
}

/// A wait reads the flag, and after each reading of false it waits for a change and
/// reads again; a reading of true ends it, and so does the loss of the sender while a
/// change is waited for. All else is ignored, in particular whatever comes once the
/// wait is over.
pub proof fn law_reads_until_true(state: WatchState, value: bool)
    ensures
        next_watch(WatchState::Reading, WatchEvent::Value(value)) == if value {
            (WatchState::Resolved, WatchAction::Resolve)
        } else {
            (WatchState::AwaitingChange, WatchAction::AwaitChange)
        },
        next_watch(WatchState::AwaitingChange, WatchEvent::Changed) == (
            WatchState::Reading,
            WatchAction::Read,
        ),
        next_watch(WatchState::AwaitingChange, WatchEvent::SenderGone) == (
            WatchState::Resolved,
            WatchAction::Resolve,
        ),
        state != WatchState::Reading ==> next_watch(state, WatchEvent::Value(value)) == (
            state,
            WatchAction::Ignore,
        ),
        state != WatchState::AwaitingChange ==> next_watch(state, WatchEvent::Changed) == (
            state,
            WatchAction::Ignore,
        ),
        state != WatchState::AwaitingChange ==> next_watch(state, WatchEvent::SenderGone) == (
            state,
            WatchAction::Ignore,
        ),
{
}

/// A row of readings, each followed by a change.
pub open spec fn readings(values: Seq<bool>) -> Seq<WatchEvent>
    decreases values.len(),
{
    if values.len() == 0 {
        Seq::empty()
    } else {
        readings(values.drop_last()).push(WatchEvent::Value(values.last())).push(
            WatchEvent::Changed,
        )
    }
}

/// However often the flag is set, a wait goes on exactly as long as it is read as
/// false.
pub proof fn law_waits_as_long_as_false(values: Seq<bool>)
    ensures
        watched(readings(values)) == if values.contains(true) {
            WatchState::Resolved
        } else {
            WatchState::Reading
        },
    decreases values.len(),
{
    if values.len() > 0 {
        let earlier = values.drop_last();
        let e0 = readings(earlier);
        let e1 = e0.push(WatchEvent::Value(values.last()));
        law_waits_as_long_as_false(earlier);
        assert(e1.drop_last() == e0);
        assert(e1.push(WatchEvent::Changed).drop_last() == e1);
        assert(watched(e1) == next_watch(watched(e0), WatchEvent::Value(values.last())).0);
        if earlier.contains(true) {
            let i = choose|i: int| 0 <= i < earlier.len() && earlier[i] == true;
            assert(values[i] == true);
        } else if values.last() {
            assert(values[values.len() - 1] == true);
        } else if values.contains(true) {
            let i = choose|i: int| 0 <= i < values.len() && values[i] == true;
            assert(earlier[i] == true);
        }
    } else {
        assert(!values.contains(true));
    }
}

} // verus!
