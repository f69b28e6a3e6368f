//! What holds of every shutdown, whatever happens and in whatever order.

use crate::lifecycle;
use crate::lifecycle::{
    Lifecycle, ShutdownAction, ShutdownEvent, ShutdownPhase, ShutdownPolicy, ShutdownState,
};
use crate::time;
use std::time::Duration;
use vstd::prelude::*;

verus! {

/// One step of a shutdown: the state that was reached, and the action that it asks
/// for.
pub type ShutdownStep = (ShutdownState, ShutdownAction);

/// The steps of a shutdown under a row of events, the first one before any event.
pub open spec fn shutdown_run(policy: ShutdownPolicy, events: Seq<ShutdownEvent>) -> Seq<
    ShutdownStep,
>
    decreases events.len(),
{
    if events.len() == 0 {
        seq![lifecycle::first_shutdown(policy)]
    } else {
        let before = shutdown_run(policy, events.drop_last());
        before.push(lifecycle::next_shutdown(before.last().0, events.last()))
    }
}

/// The phase that a shutdown has come to.
pub open spec fn phase_after(policy: ShutdownPolicy, events: Seq<ShutdownEvent>) -> ShutdownPhase {
    shutdown_run(policy, events).last().0.phase
}

/// The child has exited, or a stop was requested.
pub open spec fn is_trigger(event: ShutdownEvent) -> bool {
    event is Exited || event is StopRequested
}

/// A stop was requested, or was found to have been requested.
pub open spec fn is_stop(event: ShutdownEvent) -> bool {
    event is StopRequested || event == ShutdownEvent::StopFlag(true)
}

/// A shutdown runs by a clock: `times[k]` is when its step `k` was taken, and no
/// sleep is reported as over before its time has passed.
pub open spec fn runs_by_clock(
    policy: ShutdownPolicy,
    events: Seq<ShutdownEvent>,
    times: Seq<nat>,
) -> bool {
    &&& times.len() == events.len() + 1
    &&& forall|i: int, k: int| 0 <= i <= k < times.len() ==> times[i] <= times[k]
    &&& forall|i: int, k: int|
        #![trigger shutdown_run(policy, events)[i], events[k]]
        0 <= i <= k < events.len() && events[k] is GraceElapsed && shutdown_run(
            policy,
            events,
        )[i].1 is Sleep ==> times[k + 1] >= times[i] + time::duration_nanos(
            shutdown_run(policy, events)[i].1->Sleep_0,
        )
}

pub(crate) proof fn lemma_run_shape(policy: ShutdownPolicy, events: Seq<ShutdownEvent>)
    ensures
        shutdown_run(policy, events).len() == events.len() + 1,
        shutdown_run(policy, events).last().0.policy == policy,
    decreases events.len(),
{
    if events.len() > 0 {
        lemma_run_shape(policy, events.drop_last());
    }
}

/// Where the grace is running or over, it was started, for the time that the
/// policy says, not before the child had exited or a stop was requested. Gives the
/// step that started it and the event that came before.
proof fn lemma_slept(policy: ShutdownPolicy, events: Seq<ShutdownEvent>) -> (at: (int, int))
    requires
        ({
            let phase = phase_after(policy, events);
            phase == ShutdownPhase::Grace || phase == ShutdownPhase::Flagging || phase
                == ShutdownPhase::Resolved
        }),
    ensures
        0 <= at.1 < at.0 <= events.len(),
        shutdown_run(policy, events)[at.0].1 == ShutdownAction::Sleep(policy.exit_grace),
        is_trigger(events[at.1]),
        policy.linger ==> is_stop(events[at.0 - 1]),
    decreases events.len(),
{
    lemma_run_shape(policy, events);
    let earlier = events.drop_last();
    lemma_run_shape(policy, earlier);
    let before = phase_after(policy, earlier);
    if before == ShutdownPhase::Grace || before == ShutdownPhase::Flagging || before
        == ShutdownPhase::Resolved {
        let at = lemma_slept(policy, earlier);
        assert(events[at.1] == earlier[at.1]);
        assert(events[at.0 - 1] == earlier[at.0 - 1]);
        at
    } else {
        let trigger = lemma_triggered(policy, earlier);
        assert(events[trigger] == earlier[trigger]);
        (events.len() as int, trigger)
    }
}

/// Past its first phase a shutdown has seen the child exit or a stop requested.
/// Gives the event.
proof fn lemma_triggered(policy: ShutdownPolicy, events: Seq<ShutdownEvent>) -> (at: int)
    requires
        phase_after(policy, events) != ShutdownPhase::AwaitingExitOrStop,
    ensures
        0 <= at < events.len(),
        is_trigger(events[at]),
    decreases events.len(),
{
    lemma_run_shape(policy, events);
    let earlier = events.drop_last();
    lemma_run_shape(policy, earlier);
    if phase_after(policy, earlier) != ShutdownPhase::AwaitingExitOrStop {
        let at = lemma_triggered(policy, earlier);
        assert(events[at] == earlier[at]);
        at
    } else {
        events.len() - 1
    }
}

/// Once the flag is being set or is set, the grace was reported as over. Gives the
/// step that started it, the event that came before, and the report.
proof fn lemma_elapsed(policy: ShutdownPolicy, events: Seq<ShutdownEvent>) -> (at: (
    int,
    int,
    int,
))
    requires
        ({
            let phase = phase_after(policy, events);
            phase == ShutdownPhase::Flagging || phase == ShutdownPhase::Resolved
        }),
    ensures
        0 <= at.1 < at.0 <= at.2 < events.len(),
        shutdown_run(policy, events)[at.0].1 == ShutdownAction::Sleep(policy.exit_grace),
        is_trigger(events[at.1]),
        policy.linger ==> is_stop(events[at.0 - 1]),
        events[at.2] is GraceElapsed,
        shutdown_run(policy, events)[at.2 + 1].1 is SetShuttingDown,
    decreases events.len(),
{
    lemma_run_shape(policy, events);
    let earlier = events.drop_last();
    lemma_run_shape(policy, earlier);
    let before = phase_after(policy, earlier);
    if before == ShutdownPhase::Flagging || before == ShutdownPhase::Resolved {
        let at = lemma_elapsed(policy, earlier);
        assert(events[at.1] == earlier[at.1]);
        assert(events[at.0 - 1] == earlier[at.0 - 1]);
        assert(events[at.2] == earlier[at.2]);
        at
    } else {
        let at = lemma_slept(policy, earlier);
        assert(events[at.1] == earlier[at.1]);
        assert(events[at.0 - 1] == earlier[at.0 - 1]);
        (at.0, at.1, events.len() - 1)
    }
}

/// The child's exit or a stop request, whichever was first, is event `j`.
pub open spec fn is_first_trigger(events: Seq<ShutdownEvent>, j: int) -> bool {
    &&& 0 <= j < events.len()
    &&& is_trigger(events[j])
    &&& forall|i: int| 0 <= i < j ==> !is_trigger(#[trigger] events[i])
}

/// The first stop is event `j`.
pub open spec fn is_first_stop(events: Seq<ShutdownEvent>, j: int) -> bool {
    &&& 0 <= j < events.len()
    &&& is_stop(events[j])
    &&& forall|i: int| 0 <= i < j ==> !is_stop(#[trigger] events[i])
}

/// Step `k` comes no earlier than the exit grace allows: counted from the child's
/// exit or a stop request, one of which came before it, and with `linger` from the
/// stop, which came before it then.
pub open spec fn is_after_grace(
    policy: ShutdownPolicy,
    events: Seq<ShutdownEvent>,
    times: Seq<nat>,
    k: int,
) -> bool {
    &&& exists|j: int| j < k && #[trigger] is_first_trigger(events, j)
    &&& forall|j: int| #[trigger]
        is_first_trigger(events, j) ==> times[j + 1] + time::duration_nanos(policy.exit_grace)
            <= times[k]
    &&& policy.linger ==> exists|j: int| j < k && #[trigger] is_first_stop(events, j)
    &&& policy.linger ==> forall|j: int| #[trigger]
        is_first_stop(events, j) ==> times[j + 1] + time::duration_nanos(policy.exit_grace)
            <= times[k]
}

proof fn lemma_first_trigger(events: Seq<ShutdownEvent>, i: int)
    requires
        0 <= i < events.len(),
        is_trigger(events[i]),
    ensures
        exists|j: int| j <= i && #[trigger] is_first_trigger(events, j),
    decreases i,
{
    if exists|j: int| 0 <= j < i && is_trigger(#[trigger] events[j]) {
        let j = choose|j: int| 0 <= j < i && is_trigger(#[trigger] events[j]);
        lemma_first_trigger(events, j);
    } else {
        assert(is_first_trigger(events, i));
    }
}

proof fn lemma_first_stop(events: Seq<ShutdownEvent>, i: int)
    requires
        0 <= i < events.len(),
        is_stop(events[i]),
    ensures
        exists|j: int| j <= i && #[trigger] is_first_stop(events, j),
    decreases i,
{
    if exists|j: int| 0 <= j < i && is_stop(#[trigger] events[j]) {
        let j = choose|j: int| 0 <= j < i && is_stop(#[trigger] events[j]);
        lemma_first_stop(events, j);
    } else {
        assert(is_first_stop(events, i));
    }
}

/// The steps under the first events of a row are the first steps under the row.
proof fn lemma_run_prefix(policy: ShutdownPolicy, events: Seq<ShutdownEvent>, n: int, i: int)
    requires
        0 <= i <= n <= events.len(),
    ensures
        shutdown_run(policy, events.take(n))[i] == shutdown_run(policy, events)[i],
    decreases events.len(),
{
    lemma_run_shape(policy, events);
    if n < events.len() {
        let earlier = events.drop_last();
        lemma_run_shape(policy, earlier);
        lemma_run_prefix(policy, earlier, n, i);
        assert(earlier.take(n) == events.take(n));
    } else {
        assert(events.take(n) == events);
    }
}

/// A sleep of the exit grace that began at step `s`, after event `t` had called for
/// it, and was over with step `k`, puts that step after the grace.
proof fn lemma_after_grace(
    policy: ShutdownPolicy,
    events: Seq<ShutdownEvent>,
    times: Seq<nat>,
    t: int,
    s: int,
    k: int,
)
    requires
        runs_by_clock(policy, events, times),
        0 <= t < s <= k <= events.len(),
        is_trigger(events[t]),
        policy.linger ==> is_stop(events[s - 1]),
        times[s] + time::duration_nanos(policy.exit_grace) <= times[k],
    ensures
        is_after_grace(policy, events, times, k),
{
    lemma_first_trigger(events, t);
    assert forall|j: int| #[trigger] is_first_trigger(events, j) implies times[j + 1]
        + time::duration_nanos(policy.exit_grace) <= times[k] by {
        assert(j <= t);
        assert(times[j + 1] <= times[s]);
    }
    if policy.linger {
        lemma_first_stop(events, s - 1);
        assert forall|j: int| #[trigger] is_first_stop(events, j) implies times[j + 1]
            + time::duration_nanos(policy.exit_grace) <= times[k] by {
            assert(j <= s - 1);
            assert(times[j + 1] <= times[s]);
        }
    }
}

/// The shutting-down flag is never set before the grace is over: each step that sets
/// it comes after the child's exit or a stop request, with `linger` after a stop, and
/// no less time after it than the policy says.
pub proof fn law_flag_waits_for_the_grace(
    policy: ShutdownPolicy,
    events: Seq<ShutdownEvent>,
    times: Seq<nat>,
    k: int,
)
    requires
        runs_by_clock(policy, events, times),
        0 <= k <= events.len(),
        shutdown_run(policy, events)[k].1 is SetShuttingDown,
    ensures
        is_after_grace(policy, events, times, k),
{
    let run = shutdown_run(policy, events);
    let upto = events.take(k);
    lemma_run_shape(policy, events);
    lemma_run_shape(policy, upto);
    lemma_run_prefix(policy, events, k, k);
    assert(shutdown_run(policy, upto).last() == run[k]);
    let before = upto.drop_last();
    lemma_run_shape(policy, before);
    let at = lemma_slept(policy, before);
    assert(before == events.take(k - 1));
    lemma_run_prefix(policy, events, k - 1, at.0);
    assert(before[at.1] == events[at.1]);
    assert(before[at.0 - 1] == events[at.0 - 1]);
    assert(upto.last() == events[k - 1]);
    assert(run[at.0].1 is Sleep && events[k - 1] is GraceElapsed);
    lemma_after_grace(policy, events, times, at.1, at.0, k);
}

/// The server outlives its child by the exit grace: a shutdown ends only after the
/// child has exited or a stop was requested, with `linger` only after a stop, and
/// from there to the setting of the flag, and so to the end of the shutdown, no less
/// time passes than the policy says.
pub proof fn law_outlives_by_the_grace(
    policy: ShutdownPolicy,
    events: Seq<ShutdownEvent>,
    times: Seq<nat>,
)
    requires
        runs_by_clock(policy, events, times),
        phase_after(policy, events) == ShutdownPhase::Resolved,
    ensures
        is_after_grace(policy, events, times, events.len() as int),
        exists|k: int|
            0 <= k < events.len() && (#[trigger] shutdown_run(policy, events)[k]).1
                is SetShuttingDown && is_after_grace(policy, events, times, k),
{
    lemma_run_shape(policy, events);
    let at = lemma_elapsed(policy, events);
    let k = at.2 + 1;
    lemma_resolved_after_flag(policy, events, k);
    law_flag_waits_for_the_grace(policy, events, times, k);
    let run = shutdown_run(policy, events);
    assert(run[k].1 is SetShuttingDown);
    assert(run[at.0].1 is Sleep);
    assert(times[k] <= times[events.len() as int]);
    lemma_after_grace(policy, events, times, at.1, at.0, events.len() as int);
}

/// The sleeps among some steps, in order.
pub open spec fn sleeps(steps: Seq<ShutdownStep>) -> Seq<Duration>
    decreases steps.len(),
{
    if steps.len() == 0 {
        Seq::empty()
    } else {
        let earlier = sleeps(steps.drop_last());
        match steps.last().1 {
            ShutdownAction::Sleep(time) => earlier.push(time),
            _ => earlier,
        }
    }
}

/// The exit grace is the only sleep of a shutdown, and it is slept once: a shutdown
/// that has ended slept for the grace and no more, and one that has not come to the
/// grace did not sleep.
pub proof fn law_sleeps_for_the_grace_alone(policy: ShutdownPolicy, events: Seq<ShutdownEvent>)
    ensures
        sleeps(shutdown_run(policy, events)) == match phase_after(policy, events) {
            ShutdownPhase::AwaitingExitOrStop => Seq::<Duration>::empty(),
            ShutdownPhase::ReadingStop => Seq::<Duration>::empty(),
            ShutdownPhase::AwaitingStop => Seq::<Duration>::empty(),
            ShutdownPhase::Grace => seq![policy.exit_grace],
            ShutdownPhase::Flagging => seq![policy.exit_grace],
            ShutdownPhase::Resolved => seq![policy.exit_grace],
        },
    decreases events.len(),
{
    let steps = shutdown_run(policy, events);
    if events.len() == 0 {
        assert(sleeps(steps.drop_last()) == Seq::<Duration>::empty());
    } else {
        let earlier = events.drop_last();
        lemma_run_shape(policy, earlier);
        law_sleeps_for_the_grace_alone(policy, earlier);
        assert(steps.drop_last() == shutdown_run(policy, earlier));
        assert(seq![policy.exit_grace] == Seq::<Duration>::empty().push(policy.exit_grace));
    }
}

/// A shutdown runs by a prompt clock: besides running by a clock, it spends no time
/// on reading or setting a flag, and the grace is reported as over when its time has
/// passed.
pub open spec fn runs_promptly(
    policy: ShutdownPolicy,
    events: Seq<ShutdownEvent>,
    times: Seq<nat>,
) -> bool {
    &&& runs_by_clock(policy, events, times)
    &&& forall|k: int|
        #![trigger shutdown_run(policy, events)[k]]
        0 <= k < events.len() && (shutdown_run(policy, events)[k].0.phase
            == ShutdownPhase::ReadingStop || shutdown_run(policy, events)[k].0.phase
            == ShutdownPhase::Flagging) ==> times[k + 1] == times[k]
    &&& forall|i: int, k: int|
        #![trigger shutdown_run(policy, events)[i], times[k]]
        0 <= i < k <= events.len() && shutdown_run(policy, events)[i].1 is Sleep && shutdown_run(
            policy,
            events,
        )[k - 1].0.phase == ShutdownPhase::Grace ==> times[k] <= times[i] + time::duration_nanos(
            shutdown_run(policy, events)[i].1->Sleep_0,
        )
}

/// Each step follows from the one before it and the event between.
proof fn lemma_run_step(policy: ShutdownPolicy, events: Seq<ShutdownEvent>, k: int)
    requires
        0 < k <= events.len(),
    ensures
        shutdown_run(policy, events)[k] == lifecycle::next_shutdown(
            shutdown_run(policy, events)[k - 1].0,
            events[k - 1],
        ),
        shutdown_run(policy, events)[k - 1].0.policy == policy,
    decreases events.len(),
{
    let earlier = events.drop_last();
    lemma_run_shape(policy, events);
    lemma_run_shape(policy, earlier);
    if k < events.len() {
        lemma_run_step(policy, earlier, k);
    }
}

/// From the beginning of the grace a prompt shutdown takes the grace and no more.
proof fn lemma_prompt_grace(
    policy: ShutdownPolicy,
    events: Seq<ShutdownEvent>,
    times: Seq<nat>,
    s: int,
    k: int,
)
    requires
        runs_promptly(policy, events, times),
        0 <= s <= k <= events.len(),
        shutdown_run(policy, events)[s].1 is Sleep,
    ensures
        shutdown_run(policy, events)[s].1 == ShutdownAction::Sleep(policy.exit_grace),
        ({
            let step = shutdown_run(policy, events)[k];
            let end = times[s] + time::duration_nanos(policy.exit_grace);
            ||| step.0.phase == ShutdownPhase::Grace
            ||| step.0.phase == ShutdownPhase::Flagging && times[k] == end
            ||| step.0.phase == ShutdownPhase::Resolved && (step.1 is Resolve ==> times[k] == end)
        }),
    decreases k,
{
    let run = shutdown_run(policy, events);
    if s > 0 {
        lemma_run_step(policy, events, s);
    } else {
        lemma_run_prefix(policy, events, 0, 0);
        assert(events.take(0).len() == 0);
    }
    if s < k {
        lemma_prompt_grace(policy, events, times, s, k - 1);
        lemma_run_step(policy, events, k);
        assert(times[k - 1 + 1] == times[k]);
        if run[k - 1].0.phase == ShutdownPhase::Grace && events[k - 1] is GraceElapsed {
            assert(run[s].1 is Sleep);
        }
    }
}

/// Without `linger` a prompt shutdown begins the grace when the child exits or a stop
/// is requested.
proof fn lemma_prompt_start(
    policy: ShutdownPolicy,
    events: Seq<ShutdownEvent>,
    times: Seq<nat>,
    j: int,
    k: int,
)
    requires
        runs_promptly(policy, events, times),
        !policy.linger,
        is_first_trigger(events, j),
        0 <= k <= events.len(),
    ensures
        ({
            let step = shutdown_run(policy, events)[k];
            &&& step.0.phase == ShutdownPhase::AwaitingExitOrStop ==> k <= j
            &&& step.0.phase == ShutdownPhase::ReadingStop ==> j < k && times[k] == times[j + 1]
            &&& step.0.phase != ShutdownPhase::AwaitingStop
            &&& step.1 is Sleep ==> times[k] == times[j + 1]
        }),
    decreases k,
{
    let run = shutdown_run(policy, events);
    if k == 0 {
        lemma_run_prefix(policy, events, 0, 0);
        assert(events.take(0).len() == 0);
    } else {
        lemma_prompt_start(policy, events, times, j, k - 1);
        lemma_run_step(policy, events, k);
        assert(times[k - 1 + 1] == times[k]);
        assert(is_trigger(events[k - 1]) ==> j <= k - 1);
        assert(run[k - 1].0.phase == ShutdownPhase::ReadingStop ==> times[k] == times[k - 1]);
    }
}

/// A prompt shutdown takes exactly the exit grace: it ends that long after the grace
/// began, and without `linger` that long after the child has exited or a stop was
/// requested, so that the server outlives its child by exactly the grace.
pub proof fn law_outlives_by_exactly_the_grace(
    policy: ShutdownPolicy,
    events: Seq<ShutdownEvent>,
    times: Seq<nat>,
    s: int,
    k: int,
)
    requires
        runs_promptly(policy, events, times),
        0 <= s <= k <= events.len(),
        shutdown_run(policy, events)[s].1 is Sleep,
        shutdown_run(policy, events)[k].1 is Resolve,
    ensures
        times[k] == times[s] + time::duration_nanos(policy.exit_grace),
        !policy.linger ==> forall|j: int| #[trigger]
            is_first_trigger(events, j) ==> times[k] == times[j + 1] + time::duration_nanos(
                policy.exit_grace,
            ),
{
    lemma_prompt_grace(policy, events, times, s, k);
    if k > 0 {
        lemma_run_step(policy, events, k);
    } else {
        lemma_run_prefix(policy, events, 0, 0);
        assert(events.take(0).len() == 0);
    }
    if !policy.linger {
        assert forall|j: int| #[trigger] is_first_trigger(events, j) implies times[k] == times[j
            + 1] + time::duration_nanos(policy.exit_grace) by {
            lemma_prompt_start(policy, events, times, j, s);
        }
    }
}

/// The step that sets the flag is not the one that ends the shutdown.
proof fn lemma_resolved_after_flag(policy: ShutdownPolicy, events: Seq<ShutdownEvent>, k: int)
    requires
        0 <= k <= events.len(),
        phase_after(policy, events) == ShutdownPhase::Resolved,
        shutdown_run(policy, events)[k].1 is SetShuttingDown,
    ensures
        k < events.len(),
{
    lemma_run_shape(policy, events);
    if k == events.len() {
        lemma_run_shape(policy, events.drop_last());
    }
}

/// The shutting-down flag is set before the shutdown ends: handlers of open sockets
/// know of it before the server stops accepting.
pub proof fn law_flag_is_set_first(policy: ShutdownPolicy, events: Seq<ShutdownEvent>)
    requires
        phase_after(policy, events) == ShutdownPhase::Resolved,
    ensures
        exists|k: int|
            0 <= k < events.len() && (#[trigger] shutdown_run(policy, events)[k]).1
                is SetShuttingDown,
        exists|k: int| 0 <= k < events.len() && #[trigger] events[k] is FlagSet,
{
    lemma_run_shape(policy, events);
    let at = lemma_elapsed(policy, events);
    lemma_resolved_after_flag(policy, events, at.2 + 1);
    assert(shutdown_run(policy, events)[at.2 + 1].1 is SetShuttingDown);
    lemma_flag_reported(policy, events);
}

proof fn lemma_flag_reported(policy: ShutdownPolicy, events: Seq<ShutdownEvent>)
    requires
        phase_after(policy, events) == ShutdownPhase::Resolved,
    ensures
        exists|k: int| 0 <= k < events.len() && #[trigger] events[k] is FlagSet,
    decreases events.len(),
{
    lemma_run_shape(policy, events);
    let earlier = events.drop_last();
    lemma_run_shape(policy, earlier);
    if phase_after(policy, earlier) == ShutdownPhase::Resolved {
        lemma_flag_reported(policy, earlier);
        let k = choose|k: int| 0 <= k < earlier.len() && #[trigger] earlier[k] is FlagSet;
        assert(events[k] is FlagSet);
    } else {
        assert(events[events.len() - 1] is FlagSet);
    }
}

/// With `linger`, nothing but a stop brings the end about: as long as none is
/// requested the grace is not even started, however often the child is reported as
/// exited.
pub proof fn law_linger_waits_for_a_stop(policy: ShutdownPolicy, events: Seq<ShutdownEvent>)
    requires
        policy.linger,
        forall|i: int| 0 <= i < events.len() ==> !is_stop(#[trigger] events[i]),
    ensures
        ({
            let phase = phase_after(policy, events);
            phase == ShutdownPhase::AwaitingExitOrStop || phase == ShutdownPhase::ReadingStop
                || phase == ShutdownPhase::AwaitingStop
        }),
{
    let phase = phase_after(policy, events);
    if phase == ShutdownPhase::Grace || phase == ShutdownPhase::Flagging || phase
        == ShutdownPhase::Resolved {
        let at = lemma_slept(policy, events);
        assert(is_stop(events[at.0 - 1]));
    }
}

pub(crate) proof fn lemma_push(
    policy: ShutdownPolicy,
    events: Seq<ShutdownEvent>,
    event: ShutdownEvent,
)
    ensures
        shutdown_run(policy, events.push(event)) == shutdown_run(policy, events).push(
            lifecycle::next_shutdown(shutdown_run(policy, events).last().0, event),
        ),
        shutdown_run(policy, events.push(event)).last() == lifecycle::next_shutdown(
            shutdown_run(policy, events).last().0,
            event,
        ),
{
    assert(events.push(event).drop_last() == events);
}

/// Without `linger` the exit of the child is enough to end the server, and so is a
/// stop; with `linger` a stop is, before the child has exited as well as after.
pub proof fn law_end_is_reached(policy: ShutdownPolicy, flag: bool)
    ensures
        !policy.linger ==> phase_after(
            policy,
            seq![
                ShutdownEvent::Exited,
                ShutdownEvent::StopFlag(flag),
                ShutdownEvent::GraceElapsed,
                ShutdownEvent::FlagSet,
            ],
        ) == ShutdownPhase::Resolved,
        phase_after(
            policy,
            seq![
                ShutdownEvent::StopRequested,
                ShutdownEvent::StopFlag(true),
                ShutdownEvent::GraceElapsed,
                ShutdownEvent::FlagSet,
            ],
        ) == ShutdownPhase::Resolved,
        policy.linger ==> phase_after(
            policy,
            seq![
                ShutdownEvent::Exited,
                ShutdownEvent::StopFlag(false),
                ShutdownEvent::StopRequested,
                ShutdownEvent::GraceElapsed,
                ShutdownEvent::FlagSet,
            ],
        ) == ShutdownPhase::Resolved,
{
    let none = Seq::<ShutdownEvent>::empty();
    let e1 = none.push(ShutdownEvent::Exited);
    let e2 = e1.push(ShutdownEvent::StopFlag(flag));
    let e3 = e2.push(ShutdownEvent::GraceElapsed);
    lemma_push(policy, none, ShutdownEvent::Exited);
    lemma_push(policy, e1, ShutdownEvent::StopFlag(flag));
    lemma_push(policy, e2, ShutdownEvent::GraceElapsed);
    lemma_push(policy, e3, ShutdownEvent::FlagSet);
    assert(seq![
        ShutdownEvent::Exited,
        ShutdownEvent::StopFlag(flag),
        ShutdownEvent::GraceElapsed,
        ShutdownEvent::FlagSet,
    ] == e3.push(ShutdownEvent::FlagSet));
    let s1 = none.push(ShutdownEvent::StopRequested);
    let s2 = s1.push(ShutdownEvent::StopFlag(true));
    let s3 = s2.push(ShutdownEvent::GraceElapsed);
    lemma_push(policy, none, ShutdownEvent::StopRequested);
    lemma_push(policy, s1, ShutdownEvent::StopFlag(true));
    lemma_push(policy, s2, ShutdownEvent::GraceElapsed);
    lemma_push(policy, s3, ShutdownEvent::FlagSet);
    assert(seq![
        ShutdownEvent::StopRequested,
        ShutdownEvent::StopFlag(true),
        ShutdownEvent::GraceElapsed,
        ShutdownEvent::FlagSet,
    ] == s3.push(ShutdownEvent::FlagSet));
    let l1 = none.push(ShutdownEvent::Exited);
    let l2 = l1.push(ShutdownEvent::StopFlag(false));
    let l3 = l2.push(ShutdownEvent::StopRequested);
    let l4 = l3.push(ShutdownEvent::GraceElapsed);
    lemma_push(policy, none, ShutdownEvent::Exited);
    lemma_push(policy, l1, ShutdownEvent::StopFlag(false));
    lemma_push(policy, l2, ShutdownEvent::StopRequested);
    lemma_push(policy, l3, ShutdownEvent::GraceElapsed);
    lemma_push(policy, l4, ShutdownEvent::FlagSet);
    assert(seq![
        ShutdownEvent::Exited,
        ShutdownEvent::StopFlag(false),
        ShutdownEvent::StopRequested,
        ShutdownEvent::GraceElapsed,
        ShutdownEvent::FlagSet,
    ] == l4.push(ShutdownEvent::FlagSet));
}

/// Each phase waits for its own event and for no other: the first one for the child's
/// exit or a stop request, the reading of the flag for what was read, lingering for a stop
/// request, the grace for its end, the setting of the flag for its being set. Any other
/// event changes nothing and asks for nothing, and a shutdown that has ended waits for
/// none.
pub proof fn law_phases_have_their_events(state: ShutdownState, event: ShutdownEvent)
    ensures
        lifecycle::next_shutdown(state, event).1 is Ignore <==> !match state.phase {
            ShutdownPhase::AwaitingExitOrStop => event is Exited || event is StopRequested,
            ShutdownPhase::ReadingStop => event is StopFlag,
            ShutdownPhase::AwaitingStop => event is StopRequested,
            ShutdownPhase::Grace => event is GraceElapsed,
            ShutdownPhase::Flagging => event is FlagSet,
            ShutdownPhase::Resolved => false,
        },
        lifecycle::next_shutdown(state, event).1 is Ignore ==> lifecycle::next_shutdown(
            state,
            event,
        ).0 == state,
        lifecycle::next_shutdown(state, event).0.policy == state.policy,
{
}

/// What a phase asks for when it is entered.
pub open spec fn asked_on_entry(state: ShutdownState) -> ShutdownAction {
    match state.phase {
        ShutdownPhase::AwaitingExitOrStop => ShutdownAction::AwaitExitOrStop,
        ShutdownPhase::ReadingStop => ShutdownAction::ReadStopRequested,
        ShutdownPhase::AwaitingStop => ShutdownAction::AwaitStop,
        ShutdownPhase::Grace => ShutdownAction::Sleep(state.policy.exit_grace),
        ShutdownPhase::Flagging => ShutdownAction::SetShuttingDown,
        ShutdownPhase::Resolved => ShutdownAction::Resolve,
    }
}

/// The actions of a shutdown, one after the other.
pub open spec fn shutdown_actions(policy: ShutdownPolicy, events: Seq<ShutdownEvent>) -> Seq<
    ShutdownAction,
> {
    Seq::new(shutdown_run(policy, events).len(), |i: int| shutdown_run(policy, events)[i].1)
}

/// A phase that is entered asks for what it is there for: every step of every shutdown
/// either goes on to another phase and asks for what that phase needs, or is ignored.
pub proof fn law_phases_ask_for_their_actions(state: ShutdownState, event: ShutdownEvent)
    ensures
        ({
            let step = lifecycle::next_shutdown(state, event);
            ||| step.1 is Ignore && step.0 == state
            ||| step.0.phase != state.phase && step.1 == asked_on_entry(step.0)
        }),
{
}

proof fn lemma_four_steps(
    policy: ShutdownPolicy,
    e1: ShutdownEvent,
    e2: ShutdownEvent,
    e3: ShutdownEvent,
    e4: ShutdownEvent,
)
    ensures
        ({
            let s0 = lifecycle::first_shutdown(policy);
            let s1 = lifecycle::next_shutdown(s0.0, e1);
            let s2 = lifecycle::next_shutdown(s1.0, e2);
            let s3 = lifecycle::next_shutdown(s2.0, e3);
            let s4 = lifecycle::next_shutdown(s3.0, e4);
            &&& shutdown_run(policy, seq![e1, e2, e3, e4]) == seq![s0, s1, s2, s3, s4]
        }),
{
    let none = Seq::<ShutdownEvent>::empty();
    lemma_push(policy, none, e1);
    lemma_push(policy, none.push(e1), e2);
    lemma_push(policy, none.push(e1).push(e2), e3);
    lemma_push(policy, none.push(e1).push(e2).push(e3), e4);
    assert(seq![e1, e2, e3, e4] == none.push(e1).push(e2).push(e3).push(e4));
}

/// A stop request ends the server, with `linger` and without: the flag of the stop is
/// read, the exit grace is slept, the shutting-down flag is set and the server is told to
/// drain. Without `linger` the child's exit does so as well, whether a stop was requested
/// or not.
pub proof fn law_shutdown_takes_its_course(policy: ShutdownPolicy, first: ShutdownEvent, flag: bool)
    requires
        first is Exited || first is StopRequested,
        policy.linger ==> flag,
    ensures
        shutdown_actions(
            policy,
            seq![
                first,
                ShutdownEvent::StopFlag(flag),
                ShutdownEvent::GraceElapsed,
                ShutdownEvent::FlagSet,
            ],
        ) == seq![
            ShutdownAction::AwaitExitOrStop,
            ShutdownAction::ReadStopRequested,
            ShutdownAction::Sleep(policy.exit_grace),
            ShutdownAction::SetShuttingDown,
            ShutdownAction::Resolve,
        ],
{
    lemma_four_steps(
        policy,
        first,
        ShutdownEvent::StopFlag(flag),
        ShutdownEvent::GraceElapsed,
        ShutdownEvent::FlagSet,
    );
}

/// With `linger` a shutdown that finds no stop requested waits for one, and takes its
/// course from there.
pub proof fn law_lingering_shutdown_takes_its_course(policy: ShutdownPolicy, first: ShutdownEvent)
    requires
        first is Exited || first is StopRequested,
        policy.linger,
    ensures
        shutdown_actions(
            policy,
            seq![
                first,
                ShutdownEvent::StopFlag(false),
                ShutdownEvent::StopRequested,
                ShutdownEvent::GraceElapsed,
                ShutdownEvent::FlagSet,
            ],
        ) == seq![
            ShutdownAction::AwaitExitOrStop,
            ShutdownAction::ReadStopRequested,
            ShutdownAction::AwaitStop,
            ShutdownAction::Sleep(policy.exit_grace),
            ShutdownAction::SetShuttingDown,
            ShutdownAction::Resolve,
        ],
{
    let four = seq![
        first,
        ShutdownEvent::StopFlag(false),
        ShutdownEvent::StopRequested,
        ShutdownEvent::GraceElapsed,
    ];
    lemma_four_steps(
        policy,
        first,
        ShutdownEvent::StopFlag(false),
        ShutdownEvent::StopRequested,
        ShutdownEvent::GraceElapsed,
    );
    lemma_push(policy, four, ShutdownEvent::FlagSet);
    assert(four.push(ShutdownEvent::FlagSet) == seq![
        first,
        ShutdownEvent::StopFlag(false),
        ShutdownEvent::StopRequested,
        ShutdownEvent::GraceElapsed,
        ShutdownEvent::FlagSet,
    ]);
}

/// The server outlives the child by as many seconds as the session was given, five where it
/// was given none, whether it lingers or not, and by no fewer for a longer timeout.
pub proof fn law_grace_is_the_timeout(a: Lifecycle, b: Lifecycle, m: u64, n: u64)
    ensures
        a.timeout == Some(m) ==> a.grace_secs() == m,
        a.timeout is None ==> a.grace_secs() == 5,
        a.timeout == b.timeout ==> a.grace_secs() == b.grace_secs(),
        a.timeout == Some(m) && b.timeout == Some(n) && m <= n ==> a.grace_secs()
            <= b.grace_secs(),
{
}

} // verus!
