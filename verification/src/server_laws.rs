//! What holds of every server, whatever happens and in whatever order.

use crate::lifecycle;
use crate::lifecycle::{
    ServerAction, ServerEnd, ServerEvent, ServerState, ShutdownAction, ShutdownEvent,
    ShutdownPhase, ShutdownPolicy, ShutdownState, DRAIN_BACKSTOP_SECS,
};
use crate::lifecycle_laws;
use crate::time;
use std::time::Duration;
use vstd::prelude::*;

verus! {

/// The steps of a server under a row of events, the first one before any event:
/// the state that was reached, and the action that it asks for.
pub open spec fn server_run<E>(policy: ShutdownPolicy, events: Seq<ServerEvent<E>>) -> Seq<
    (ServerState, ServerAction<E>),
>
    decreases events.len(),
{
    if events.len() == 0 {
        seq![lifecycle::first_server::<E>(policy)]
    } else {
        let before = server_run(policy, events.drop_last());
        before.push(lifecycle::next_server(before.last().0, events.last()))
    }
}

/// The step that a server has come to.
pub open spec fn server_after<E>(policy: ShutdownPolicy, events: Seq<ServerEvent<E>>) -> (
    ServerState,
    ServerAction<E>,
) {
    server_run(policy, events).last()
}

/// Those of a server's events that bear on the shutdown.
pub open spec fn shutdown_events<E>(events: Seq<ServerEvent<E>>) -> Seq<ShutdownEvent>
    decreases events.len(),
{
    if events.len() == 0 {
        Seq::empty()
    } else {
        let earlier = shutdown_events(events.drop_last());
        match events.last() {
            ServerEvent::Shutdown(event) => earlier.push(event),
            _ => earlier,
        }
    }
}

/// The shutdown has ended: the server has been told to drain.
pub open spec fn is_signalled<E>(policy: ShutdownPolicy, events: Seq<ServerEvent<E>>) -> bool {
    lifecycle_laws::phase_after(policy, shutdown_events(events)) == ShutdownPhase::Resolved
}

/// The shutting-down flag was set: the step that asks for it was taken, and it was
/// reported as done.
pub open spec fn flag_was_set<E>(policy: ShutdownPolicy, events: Seq<ServerEvent<E>>) -> bool {
    exists|i: int, k: int|
        #![trigger server_run(policy, events)[i], events[k]]
        {
            &&& 0 <= i <= k < events.len()
            &&& server_run(policy, events)[i].1 == ServerAction::<E>::Shutdown(
                ShutdownAction::SetShuttingDown,
            )
            &&& events[k] == ServerEvent::<E>::Shutdown(ShutdownEvent::FlagSet)
        }
}

/// A server runs by a clock: `times[k]` is when its step `k` was taken, and neither
/// the exit grace nor the backstop is reported as over before its time has passed
/// since it began.
pub open spec fn runs_by_clock<E>(
    policy: ShutdownPolicy,
    events: Seq<ServerEvent<E>>,
    times: Seq<nat>,
) -> bool {
    &&& times.len() == events.len() + 1
    &&& forall|i: int, k: int| 0 <= i <= k < times.len() ==> times[i] <= times[k]
    &&& forall|i: int, k: int|
        #![trigger server_run(policy, events)[i], events[k]]
        0 <= i <= k < events.len() && server_run(policy, events)[i].1 is Drain && events[k]
            is BackstopElapsed ==> times[k + 1] >= times[i] + DRAIN_BACKSTOP_SECS * 1_000_000_000
    &&& forall|i: int, k: int|
        #![trigger server_run(policy, events)[i], events[k]]
        0 <= i <= k < events.len() && sleep_begun(server_run(policy, events)[i].1) is Some
            && events[k] == ServerEvent::<E>::Shutdown(ShutdownEvent::GraceElapsed) ==> times[k
            + 1] >= times[i] + time::duration_nanos(
            sleep_begun(server_run(policy, events)[i].1).unwrap(),
        )
}

/// The sleep that an action begins.
pub open spec fn sleep_begun<E>(action: ServerAction<E>) -> Option<Duration> {
    match action {
        ServerAction::Shutdown(ShutdownAction::Sleep(time)) => Some(time),
        _ => None,
    }
}

proof fn lemma_run_len<E>(policy: ShutdownPolicy, events: Seq<ServerEvent<E>>)
    ensures
        server_run(policy, events).len() == events.len() + 1,
    decreases events.len(),
{
    if events.len() > 0 {
        lemma_run_len(policy, events.drop_last());
    }
}

/// The steps under a row of events begin with those under the events before the
/// last.
proof fn lemma_run_before_last<E>(policy: ShutdownPolicy, events: Seq<ServerEvent<E>>)
    requires
        events.len() > 0,
    ensures
        server_run(policy, events).len() == events.len() + 1,
        server_run(policy, events.drop_last()).len() == events.len(),
        forall|i: int|
            0 <= i < events.len() ==> #[trigger] server_run(policy, events)[i] == server_run(
                policy,
                events.drop_last(),
            )[i],
        forall|i: int|
            0 <= i < events.len() - 1 ==> #[trigger] events[i] == events.drop_last()[i],
{
    lemma_run_len(policy, events);
    lemma_run_len(policy, events.drop_last());
}

/// A server serves until its shutdown has ended. It drains only then, and only then
/// a drain can complete or be given up; before, nothing ends it but a failure.
pub proof fn law_server_follows_its_shutdown<E>(
    policy: ShutdownPolicy,
    events: Seq<ServerEvent<E>>,
)
    ensures
        match server_after(policy, events).0 {
            ServerState::Serving(shutdown) => {
                &&& shutdown == lifecycle_laws::shutdown_run(
                    policy,
                    shutdown_events(events),
                ).last().0
                &&& !is_signalled(policy, events)
            },
            ServerState::Draining => is_signalled(policy, events),
            ServerState::Ended => true,
        },
        server_after(policy, events).1 is Drain ==> is_signalled(policy, events),
        server_after(policy, events).1 == ServerAction::<E>::End(ServerEnd::Finished)
            ==> is_signalled(policy, events),
        server_after(policy, events).1 == ServerAction::<E>::End(ServerEnd::Abandoned)
            ==> is_signalled(policy, events),
    decreases events.len(),
{
    if events.len() > 0 {
        let earlier = events.drop_last();
        law_server_follows_its_shutdown(policy, earlier);
        lifecycle_laws::lemma_run_shape(policy, shutdown_events(earlier));
        if let ServerEvent::Shutdown(event) = events.last() {
            lifecycle_laws::lemma_push(policy, shutdown_events(earlier), event);
        }
    }
}

/// While the flag is being set, the step that asks for it was taken. Gives the step.
proof fn lemma_flag_asked<E>(policy: ShutdownPolicy, events: Seq<ServerEvent<E>>) -> (at: int)
    requires
        server_after(policy, events).0 matches ServerState::Serving(shutdown) && shutdown.phase
            == ShutdownPhase::Flagging,
    ensures
        0 <= at <= events.len(),
        server_run(policy, events)[at].1 == ServerAction::<E>::Shutdown(
            ShutdownAction::SetShuttingDown,
        ),
    decreases events.len(),
{
    if events.len() == 0 {
        0
    } else {
        let earlier = events.drop_last();
        lemma_run_before_last(policy, events);
        if server_after(policy, earlier).0 == server_after(policy, events).0 {
            lemma_flag_asked(policy, earlier)
        } else {
            events.len() as int
        }
    }
}

proof fn lemma_flag_was_set_before_last<E>(policy: ShutdownPolicy, events: Seq<ServerEvent<E>>)
    requires
        events.len() > 0,
        flag_was_set(policy, events.drop_last()),
    ensures
        flag_was_set(policy, events),
{
    let earlier = events.drop_last();
    lemma_run_before_last(policy, events);
    let (i, k) = choose|i: int, k: int|
        #![trigger server_run(policy, earlier)[i], earlier[k]]
        {
            &&& 0 <= i <= k < earlier.len()
            &&& server_run(policy, earlier)[i].1 == ServerAction::<E>::Shutdown(
                ShutdownAction::SetShuttingDown,
            )
            &&& earlier[k] == ServerEvent::<E>::Shutdown(ShutdownEvent::FlagSet)
        };
    assert(server_run(policy, events)[i] == server_run(policy, earlier)[i]);
    assert(events[k] == earlier[k]);
}

/// A server that has been told to drain has set its flag before.
proof fn lemma_draining_flagged<E>(policy: ShutdownPolicy, events: Seq<ServerEvent<E>>)
    requires
        server_after(policy, events).0 is Draining,
    ensures
        flag_was_set(policy, events),
    decreases events.len(),
{
    let earlier = events.drop_last();
    lemma_run_before_last(policy, events);
    if server_after(policy, earlier).0 is Draining {
        lemma_draining_flagged(policy, earlier);
        lemma_flag_was_set_before_last(policy, events);
    } else {
        let i = lemma_flag_asked(policy, earlier);
        let k = events.len() - 1;
        assert(server_run(policy, events)[i] == server_run(policy, earlier)[i]);
        assert(events[k] == events.last());
    }
}

/// Whatever ends a draining server, its shutting-down flag was set first: where the
/// drain completes, where it is given up, and where it fails. Nothing else ends it.
pub proof fn law_drain_ends_after_the_flag<E>(policy: ShutdownPolicy, events: Seq<ServerEvent<E>>)
    requires
        events.len() > 0,
        server_after(policy, events.drop_last()).0 is Draining,
        server_after(policy, events).0 is Ended,
    ensures
        flag_was_set(policy, events),
        is_signalled(policy, events.drop_last()),
        match events.last() {
            ServerEvent::Drained => server_after(policy, events).1 == ServerAction::<E>::End(
                ServerEnd::Finished,
            ),
            ServerEvent::ServeFailed(error) => server_after(policy, events).1 == ServerAction::End(
                ServerEnd::Failed(error),
            ),
            ServerEvent::BackstopElapsed => server_after(policy, events).1 == ServerAction::<
                E,
            >::End(ServerEnd::Abandoned),
            ServerEvent::Shutdown(_) => false,
        },
{
    law_server_follows_its_shutdown(policy, events.drop_last());
    lemma_draining_flagged(policy, events.drop_last());
    lemma_flag_was_set_before_last(policy, events);
}

/// A server that has been told to drain stays so.
proof fn lemma_signal_stays<E>(policy: ShutdownPolicy, events: Seq<ServerEvent<E>>)
    requires
        events.len() > 0,
    ensures
        is_signalled(policy, events.drop_last()) ==> is_signalled(policy, events),
{
    let earlier = events.drop_last();
    lifecycle_laws::lemma_run_shape(policy, shutdown_events(earlier));
    if let ServerEvent::Shutdown(event) = events.last() {
        lifecycle_laws::lemma_push(policy, shutdown_events(earlier), event);
    }
}

/// As long as serving has not failed and the server has not been told to drain, it
/// serves, and it has done so all along: the child's exit, a stop request and the
/// backstop end nothing by themselves.
pub proof fn law_serves_until_signalled<E>(policy: ShutdownPolicy, events: Seq<ServerEvent<E>>)
    requires
        forall|k: int| 0 <= k < events.len() ==> !(#[trigger] events[k] is ServeFailed),
        !is_signalled(policy, events),
    ensures
        forall|k: int|
            0 <= k <= events.len() ==> (#[trigger] server_run(policy, events)[k]).0 is Serving,
    decreases events.len(),
{
    lemma_run_len(policy, events);
    law_server_follows_its_shutdown(policy, events);
    if events.len() > 0 {
        let earlier = events.drop_last();
        lemma_run_before_last(policy, events);
        assert forall|k: int| 0 <= k < earlier.len() implies !(#[trigger] earlier[k]
            is ServeFailed) by {
            assert(events[k] == earlier[k]);
        }
        lemma_signal_stays(policy, events);
        law_serves_until_signalled(policy, earlier);
        assert(!(events[events.len() - 1] is ServeFailed));
        assert(server_run(policy, earlier)[events.len() - 1].0 is Serving);
    }
}

/// A server that ends without a failure was told to drain, and has set its
/// shutting-down flag before.
pub proof fn law_success_comes_after_the_flag<E>(
    policy: ShutdownPolicy,
    events: Seq<ServerEvent<E>>,
    end: ServerEnd<E>,
)
    requires
        server_after(policy, events).1 == ServerAction::End(end),
        !(end is Failed),
    ensures
        flag_was_set(policy, events),
        is_signalled(policy, events),
{
    lemma_run_len(policy, events);
    if events.len() > 0 {
        assert(server_after(policy, events.drop_last()).0 is Draining);
        law_drain_ends_after_the_flag(policy, events);
        lemma_signal_stays(policy, events);
    }
}

/// A server that drains was told to. Gives the step.
proof fn lemma_drain_began<E>(policy: ShutdownPolicy, events: Seq<ServerEvent<E>>) -> (at: int)
    requires
        server_after(policy, events).0 is Draining,
    ensures
        0 <= at <= events.len(),
        server_run(policy, events)[at].1 is Drain,
    decreases events.len(),
{
    let earlier = events.drop_last();
    lemma_run_before_last(policy, events);
    if server_after(policy, earlier).0 is Draining {
        lemma_drain_began(policy, earlier)
    } else {
        events.len() as int
    }
}

/// No drain is given up before the backstop's time has passed since it began.
pub proof fn law_drain_has_its_time<E>(
    policy: ShutdownPolicy,
    events: Seq<ServerEvent<E>>,
    times: Seq<nat>,
)
    requires
        runs_by_clock(policy, events, times),
        server_after(policy, events).1 == ServerAction::<E>::End(ServerEnd::Abandoned),
    ensures
        exists|i: int|
            0 <= i < events.len() && (#[trigger] server_run(policy, events)[i]).1 is Drain
                && times[i] + DRAIN_BACKSTOP_SECS * 1_000_000_000 <= times[events.len() as int],
{
    lemma_run_len(policy, events);
    let earlier = events.drop_last();
    lemma_run_before_last(policy, events);
    let i = lemma_drain_began(policy, earlier);
    let last = events.len() - 1;
    assert(events[last] is BackstopElapsed);
    assert(server_run(policy, events)[i].1 is Drain);
}

/// A stop was requested of the server, or was found to have been requested.
pub open spec fn is_server_stop<E>(event: ServerEvent<E>) -> bool {
    match event {
        ServerEvent::Shutdown(event) => lifecycle_laws::is_stop(event),
        _ => false,
    }
}

/// The child of the server has exited, or a stop was requested.
pub open spec fn is_server_trigger<E>(event: ServerEvent<E>) -> bool {
    match event {
        ServerEvent::Shutdown(event) => lifecycle_laws::is_trigger(event),
        _ => false,
    }
}

/// The child's exit or a stop request, whichever was first, is event `j`.
pub open spec fn is_first_trigger<E>(events: Seq<ServerEvent<E>>, j: int) -> bool {
    &&& 0 <= j < events.len()
    &&& is_server_trigger(events[j])
    &&& forall|i: int| 0 <= i < j ==> !is_server_trigger(#[trigger] events[i])
}

/// The first stop is event `j`.
pub open spec fn is_first_stop<E>(events: Seq<ServerEvent<E>>, j: int) -> bool {
    &&& 0 <= j < events.len()
    &&& is_server_stop(events[j])
    &&& forall|i: int| 0 <= i < j ==> !is_server_stop(#[trigger] events[i])
}

proof fn lemma_first_trigger<E>(events: Seq<ServerEvent<E>>, i: int)
    requires
        0 <= i < events.len(),
        is_server_trigger(events[i]),
    ensures
        exists|j: int| j <= i && #[trigger] is_first_trigger(events, j),
    decreases i,
{
    if exists|j: int| 0 <= j < i && is_server_trigger(#[trigger] events[j]) {
        let j = choose|j: int| 0 <= j < i && is_server_trigger(#[trigger] events[j]);
        lemma_first_trigger(events, j);
    } else {
        assert(is_first_trigger(events, i));
    }
}

proof fn lemma_first_stop<E>(events: Seq<ServerEvent<E>>, i: int)
    requires
        0 <= i < events.len(),
        is_server_stop(events[i]),
    ensures
        exists|j: int| j <= i && #[trigger] is_first_stop(events, j),
    decreases i,
{
    if exists|j: int| 0 <= j < i && is_server_stop(#[trigger] events[j]) {
        let j = choose|j: int| 0 <= j < i && is_server_stop(#[trigger] events[j]);
        lemma_first_stop(events, j);
    } else {
        assert(is_first_stop(events, i));
    }
}

/// Step `k` comes no earlier than the exit grace allows: counted from the child's
/// exit or a stop request, one of which came before it, and with `linger` from the
/// stop, which came before it then.
pub open spec fn is_after_grace<E>(
    policy: ShutdownPolicy,
    events: Seq<ServerEvent<E>>,
    times: Seq<nat>,
    k: int,
) -> bool {
    &&& exists|j: int| j < k && #[trigger] is_first_trigger(events, j)
    &&& forall|j: int| #[trigger]
        is_first_trigger(events, j) ==> times[j + 1] + time::duration_nanos(policy.exit_grace)
            <= times[k]
    &&& policy.linger ==> exists|j: int| j < k && #[trigger] is_first_stop(events, j)
    &&& policy.linger ==> forall|j: int| #[trigger]
        is_first_stop(events, j) ==> times[j + 1] + time::duration_nanos(policy.exit_grace)
            <= times[k]
}

/// The server closes down: it sets its flag, drains, or ends without a failure.
pub open spec fn closes_down<E>(action: ServerAction<E>) -> bool {
    match action {
        ServerAction::Shutdown(ShutdownAction::SetShuttingDown) => true,
        ServerAction::Drain => true,
        ServerAction::End(ServerEnd::Finished) => true,
        ServerAction::End(ServerEnd::Abandoned) => true,
        _ => false,
    }
}

/// A server that serves does so under its policy.
proof fn lemma_policy<E>(policy: ShutdownPolicy, events: Seq<ServerEvent<E>>)
    ensures
        server_after(policy, events).0 matches ServerState::Serving(shutdown) ==> shutdown.policy
            == policy,
{
    law_server_follows_its_shutdown(policy, events);
    lifecycle_laws::lemma_run_shape(policy, shutdown_events(events));
}

/// Past its first phase the shutdown of a server has seen the child exit or a stop
/// requested. Gives the event.
proof fn lemma_triggered<E>(policy: ShutdownPolicy, events: Seq<ServerEvent<E>>) -> (at: int)
    requires
        server_after(policy, events).0 matches ServerState::Serving(shutdown) && shutdown.phase
            != ShutdownPhase::AwaitingExitOrStop,
    ensures
        0 <= at < events.len(),
        is_server_trigger(events[at]),
    decreases events.len(),
{
    let earlier = events.drop_last();
    lemma_run_before_last(policy, events);
    if server_after(policy, earlier).0 == server_after(policy, events).0 {
        lemma_triggered(policy, earlier)
    } else if server_after(policy, earlier).0->Serving_0.phase
        != ShutdownPhase::AwaitingExitOrStop {
        lemma_triggered(policy, earlier)
    } else {
        events.len() - 1
    }
}

/// While the grace is running it was started, for the time that the policy says.
/// Gives the event that called for it and the step that started it.
proof fn lemma_slept<E>(policy: ShutdownPolicy, events: Seq<ServerEvent<E>>) -> (at: (int, int))
    requires
        server_after(policy, events).0 matches ServerState::Serving(shutdown) && shutdown.phase
            == ShutdownPhase::Grace,
    ensures
        0 <= at.0 < at.1 <= events.len(),
        is_server_trigger(events[at.0]),
        policy.linger ==> is_server_stop(events[at.1 - 1]),
        server_run(policy, events)[at.1].1 == ServerAction::<E>::Shutdown(
            ShutdownAction::Sleep(policy.exit_grace),
        ),
    decreases events.len(),
{
    let earlier = events.drop_last();
    lemma_run_before_last(policy, events);
    lemma_policy(policy, earlier);
    if server_after(policy, earlier).0 == server_after(policy, events).0 {
        let at = lemma_slept(policy, earlier);
        assert(events[at.0] == earlier[at.0]);
        assert(events[at.1 - 1] == earlier[at.1 - 1]);
        at
    } else {
        let t = lemma_triggered(policy, earlier);
        assert(events[t] == earlier[t]);
        (t, events.len() as int)
    }
}

/// A server that closes down let the grace pass. Gives the event that called for the
/// grace, the step that started it, and the report that it was over.
proof fn lemma_elapsed<E>(policy: ShutdownPolicy, events: Seq<ServerEvent<E>>) -> (at: (
    int,
    int,
    int,
))
    requires
        ({
            let state = server_after(policy, events).0;
            ||| state is Draining
            ||| state is Serving && state->Serving_0.phase == ShutdownPhase::Flagging
        }),
    ensures
        0 <= at.0 < at.1 <= at.2 < events.len(),
        is_server_trigger(events[at.0]),
        policy.linger ==> is_server_stop(events[at.1 - 1]),
        server_run(policy, events)[at.1].1 == ServerAction::<E>::Shutdown(
            ShutdownAction::Sleep(policy.exit_grace),
        ),
        events[at.2] == ServerEvent::<E>::Shutdown(ShutdownEvent::GraceElapsed),
    decreases events.len(),
{
    let earlier = events.drop_last();
    lemma_run_before_last(policy, events);
    lemma_policy(policy, earlier);
    let before = server_after(policy, earlier).0;
    if before is Serving && before->Serving_0.phase == ShutdownPhase::Grace {
        let at = lemma_slept(policy, earlier);
        assert(events[at.0] == earlier[at.0]);
        assert(events[at.1 - 1] == earlier[at.1 - 1]);
        assert(events[events.len() - 1] == events.last());
        (at.0, at.1, events.len() - 1)
    } else {
        let at = lemma_elapsed(policy, earlier);
        assert(events[at.0] == earlier[at.0]);
        assert(events[at.1 - 1] == earlier[at.1 - 1]);
        assert(events[at.2] == earlier[at.2]);
        at
    }
}

/// The steps under the first events of a row are the first steps under the row.
proof fn lemma_run_prefix<E>(policy: ShutdownPolicy, events: Seq<ServerEvent<E>>, n: int, i: int)
    requires
        0 <= i <= n <= events.len(),
    ensures
        server_run(policy, events.take(n)).len() == n + 1,
        server_run(policy, events.take(n))[i] == server_run(policy, events)[i],
    decreases events.len(),
{
    lemma_run_len(policy, events.take(n));
    if n < events.len() {
        lemma_run_before_last(policy, events);
        lemma_run_prefix(policy, events.drop_last(), n, i);
        assert(events.drop_last().take(n) == events.take(n));
    } else {
        assert(events.take(n) == events);
    }
}

/// The server outlives its child by the exit grace: each step by which it closes down
/// (the setting of its flag, the beginning of the drain, an end without a failure)
/// comes after the child's exit or a stop request, with `linger` after a stop, and no
/// less time after it than the policy says.
pub proof fn law_server_outlives_by_the_grace<E>(
    policy: ShutdownPolicy,
    events: Seq<ServerEvent<E>>,
    times: Seq<nat>,
    k: int,
)
    requires
        runs_by_clock(policy, events, times),
        0 <= k <= events.len(),
        closes_down(server_run(policy, events)[k].1),
    ensures
        is_after_grace(policy, events, times, k),
{
    let run = server_run(policy, events);
    let upto = events.take(k);
    lemma_run_prefix(policy, events, k, k);
    assert(server_after(policy, upto) == run[k]);
    let before = upto.drop_last();
    lemma_run_before_last(policy, upto);
    assert(before == events.take(k - 1));
    let state = server_after(policy, upto).0;
    let (t, s, e) = if state is Ended {
        lemma_elapsed(policy, before)
    } else {
        lemma_elapsed(policy, upto)
    };
    lemma_run_prefix(policy, events, k, s);
    if state is Ended {
        lemma_run_prefix(policy, events, k - 1, s);
    }
    assert(is_server_trigger(events[t]));
    assert(sleep_begun(run[s].1) == Some(policy.exit_grace));
    assert(events[e] == ServerEvent::<E>::Shutdown(ShutdownEvent::GraceElapsed));
    assert(times[s] + time::duration_nanos(policy.exit_grace) <= times[e + 1]);
    assert(times[e + 1] <= times[k]);
    lemma_first_trigger(events, t);
    assert forall|j: int| #[trigger] is_first_trigger(events, j) implies times[j + 1]
        + time::duration_nanos(policy.exit_grace) <= times[k] by {
        assert(j <= t);
        assert(times[j + 1] <= times[s]);
    }
    if policy.linger {
        assert(is_server_stop(events[s - 1]));
        lemma_first_stop(events, s - 1);
        assert forall|j: int| #[trigger] is_first_stop(events, j) implies times[j + 1]
            + time::duration_nanos(policy.exit_grace) <= times[k] by {
            assert(j <= s - 1);
            assert(times[j + 1] <= times[s]);
        }
    }
}

proof fn lemma_no_stop_among_shutdown_events<E>(events: Seq<ServerEvent<E>>)
    requires
        forall|i: int| 0 <= i < events.len() ==> !is_server_stop(#[trigger] events[i]),
    ensures
        forall|i: int|
            0 <= i < shutdown_events(events).len() ==> !lifecycle_laws::is_stop(
                #[trigger] shutdown_events(events)[i],
            ),
    decreases events.len(),
{
    if events.len() > 0 {
        let earlier = events.drop_last();
        assert forall|i: int| 0 <= i < earlier.len() implies !is_server_stop(
            #[trigger] earlier[i],
        ) by {
            assert(events[i] == earlier[i]);
        }
        lemma_no_stop_among_shutdown_events(earlier);
        assert forall|i: int|
            0 <= i < shutdown_events(events).len() implies !lifecycle_laws::is_stop(
            #[trigger] shutdown_events(events)[i],
        ) by {
            if i < shutdown_events(earlier).len() {
                assert(shutdown_events(events)[i] == shutdown_events(earlier)[i]);
            } else {
                assert(!is_server_stop(events[events.len() - 1]));
            }
        }
    }
}

/// With `linger`, a server goes on serving until a stop is requested or serving
/// fails.
pub proof fn law_lingering_server_serves<E>(policy: ShutdownPolicy, events: Seq<ServerEvent<E>>)
    requires
        policy.linger,
        forall|i: int| 0 <= i < events.len() ==> !(#[trigger] events[i] is ServeFailed),
        forall|i: int| 0 <= i < events.len() ==> !is_server_stop(#[trigger] events[i]),
    ensures
        server_after(policy, events).0 is Serving,
{
    lemma_no_stop_among_shutdown_events(events);
    lifecycle_laws::law_linger_waits_for_a_stop(policy, shutdown_events(events));
    law_serves_until_signalled(policy, events);
    lemma_run_len(policy, events);
    assert(server_run(policy, events)[events.len() as int].0 is Serving);
}

/// A drain is bounded: whichever comes first, its completion, a failure or the
/// backstop, ends the server, and the backstop does so without a failure.
pub proof fn law_drain_is_bounded<E>(event: ServerEvent<E>)
    ensures
        lifecycle::next_server(ServerState::Draining, event).0 is Ended <==> event is Drained
            || event is ServeFailed || event is BackstopElapsed,
        lifecycle::next_server(ServerState::Draining, ServerEvent::<E>::BackstopElapsed) == (
            ServerState::Ended,
            ServerAction::<E>::End(ServerEnd::Abandoned),
        ),
        !(lifecycle::next_server(ServerState::Draining, event).0 is Serving),
        lifecycle::next_server(ServerState::Ended, event) == (
            ServerState::Ended,
            ServerAction::<E>::Ignore,
        ),
{
}

/// While a server serves, whatever bears on its shutdown leads to exactly what the
/// shutdown asks for: the server asks for the same action, drains where the shutdown ends,
/// and lets pass what the shutdown lets pass.
pub proof fn law_server_asks_what_its_shutdown_asks<E>(
    policy: ShutdownPolicy,
    events: Seq<ServerEvent<E>>,
)
    requires
        events.len() > 0,
        events.last() is Shutdown,
        server_after(policy, events.drop_last()).0 is Serving,
    ensures
        ({
            let asked = lifecycle_laws::shutdown_run(policy, shutdown_events(events)).last().1;
            server_after(policy, events).1 == if asked is Resolve {
                ServerAction::<E>::Drain
            } else if asked is Ignore {
                ServerAction::<E>::Ignore
            } else {
                ServerAction::<E>::Shutdown(asked)
            }
        }),
{
    let earlier = events.drop_last();
    law_server_follows_its_shutdown(policy, earlier);
    lifecycle_laws::lemma_run_shape(policy, shutdown_events(earlier));
    lifecycle_laws::lemma_push(policy, shutdown_events(earlier), events.last()->Shutdown_0);
}

/// An event that a server lets pass leaves it as it was. A serving server waits for what
/// its shutdown waits for, a draining one for the end of the drain or the backstop, each
/// for a failure, and one that has ended for nothing.
pub proof fn law_server_has_its_events<E>(state: ServerState, event: ServerEvent<E>)
    ensures
        lifecycle::next_server(state, event).1 is Ignore ==> lifecycle::next_server(state, event).0
            == state,
        lifecycle::next_server(state, event).1 is Ignore <==> match state {
            ServerState::Serving(shutdown) => match event {
                ServerEvent::Shutdown(event) => lifecycle::next_shutdown(shutdown, event).1
                    is Ignore,
                ServerEvent::ServeFailed(_) => false,
                _ => true,
            },
            ServerState::Draining => event is Shutdown,
            ServerState::Ended => true,
        },
{
}

/// A failure ends a server in whatever state it is, and is handed on unchanged; a drain
/// ends with its completion or with the backstop.
pub proof fn law_server_ends_with_its_cause<E>(state: ServerState, error: E)
    requires
        !(state is Ended),
    ensures
        lifecycle::next_server(state, ServerEvent::ServeFailed(error)) == (
            ServerState::Ended,
            ServerAction::End(ServerEnd::Failed(error)),
        ),
        lifecycle::next_server(ServerState::Draining, ServerEvent::<E>::Drained) == (
            ServerState::Ended,
            ServerAction::<E>::End(ServerEnd::Finished),
        ),
        lifecycle::next_server(ServerState::Draining, ServerEvent::<E>::BackstopElapsed) == (
            ServerState::Ended,
            ServerAction::<E>::End(ServerEnd::Abandoned),
        ),
{
}

/// A serving server keeps its shutdown: what bears on it moves it on as a shutdown of its
/// own would go, until it ends and the server drains.
pub proof fn law_serving_server_keeps_its_shutdown<E>(
    policy: ShutdownPolicy,
    shutdown: ShutdownState,
    event: ShutdownEvent,
)
    ensures
        server_run(policy, Seq::<ServerEvent<E>>::empty()) == seq![
            (
                ServerState::Serving(
                    ShutdownState { policy, phase: ShutdownPhase::AwaitingExitOrStop },
                ),
                ServerAction::<E>::Shutdown(ShutdownAction::AwaitExitOrStop),
            ),
        ],
        ({
            let step = lifecycle::next_shutdown(shutdown, event);
            lifecycle::next_server(
                ServerState::Serving(shutdown),
                ServerEvent::<E>::Shutdown(event),
            ) == if step.1 is Resolve {
                (ServerState::Draining, ServerAction::<E>::Drain)
            } else if step.1 is Ignore {
                (ServerState::Serving(shutdown), ServerAction::<E>::Ignore)
            } else {
                (ServerState::Serving(step.0), ServerAction::<E>::Shutdown(step.1))
            }
        }),
{
}

/// The actions of a server, one after the other.
pub open spec fn server_actions<E>(policy: ShutdownPolicy, events: Seq<ServerEvent<E>>) -> Seq<
    ServerAction<E>,
> {
    Seq::new(server_run(policy, events).len(), |i: int| server_run(policy, events)[i].1)
}

proof fn lemma_server_push<E>(
    policy: ShutdownPolicy,
    events: Seq<ServerEvent<E>>,
    event: ServerEvent<E>,
)
    ensures
        server_run(policy, events.push(event)) == server_run(policy, events).push(
            lifecycle::next_server(server_run(policy, events).last().0, event),
        ),
        server_run(policy, events).len() == events.len() + 1,
{
    lemma_run_len(policy, events);
    assert(events.push(event).drop_last() == events);
}

/// The whole life of a server that is told to stop, or whose child exits while it does not
/// linger: the flag of the stop is read, the exit grace is slept, the shutting-down flag is
/// set, and the server drains until the drain completes or the backstop gives it up.
pub proof fn law_server_takes_its_course<E>(
    policy: ShutdownPolicy,
    first: ShutdownEvent,
    flag: bool,
    drained: bool,
)
    requires
        first is Exited || first is StopRequested,
        policy.linger ==> flag,
    ensures
        server_actions(
            policy,
            seq![
                ServerEvent::<E>::Shutdown(first),
                ServerEvent::Shutdown(ShutdownEvent::StopFlag(flag)),
                ServerEvent::Shutdown(ShutdownEvent::GraceElapsed),
                ServerEvent::Shutdown(ShutdownEvent::FlagSet),
                if drained {
                    ServerEvent::Drained
                } else {
                    ServerEvent::BackstopElapsed
                },
            ],
        ) == seq![
            ServerAction::<E>::Shutdown(ShutdownAction::AwaitExitOrStop),
            ServerAction::Shutdown(ShutdownAction::ReadStopRequested),
            ServerAction::Shutdown(ShutdownAction::Sleep(policy.exit_grace)),
            ServerAction::Shutdown(ShutdownAction::SetShuttingDown),
            ServerAction::Drain,
            ServerAction::End(
                if drained {
                    ServerEnd::Finished
                } else {
                    ServerEnd::Abandoned
                },
            ),
        ],
{
    let end = if drained {
        ServerEvent::<E>::Drained
    } else {
        ServerEvent::<E>::BackstopElapsed
    };
    let e0 = Seq::<ServerEvent<E>>::empty();
    let e1 = e0.push(ServerEvent::Shutdown(first));
    let e2 = e1.push(ServerEvent::Shutdown(ShutdownEvent::StopFlag(flag)));
    let e3 = e2.push(ServerEvent::Shutdown(ShutdownEvent::GraceElapsed));
    let e4 = e3.push(ServerEvent::Shutdown(ShutdownEvent::FlagSet));
    lemma_server_push(policy, e0, ServerEvent::Shutdown(first));
    lemma_server_push(policy, e1, ServerEvent::Shutdown(ShutdownEvent::StopFlag(flag)));
    lemma_server_push(policy, e2, ServerEvent::Shutdown(ShutdownEvent::GraceElapsed));
    lemma_server_push(policy, e3, ServerEvent::Shutdown(ShutdownEvent::FlagSet));
    lemma_server_push(policy, e4, end);
    assert(seq![
        ServerEvent::<E>::Shutdown(first),
        ServerEvent::Shutdown(ShutdownEvent::StopFlag(flag)),
        ServerEvent::Shutdown(ShutdownEvent::GraceElapsed),
        ServerEvent::Shutdown(ShutdownEvent::FlagSet),
        end,
    ] == e4.push(end));
}

/// The whole life of a server that lingers: its child exits, it finds no stop requested and
/// waits for one, and takes its course from there.
pub proof fn law_lingering_server_takes_its_course<E>(policy: ShutdownPolicy)
    requires
        policy.linger,
    ensures
        server_actions(
            policy,
            seq![
                ServerEvent::<E>::Shutdown(ShutdownEvent::Exited),
                ServerEvent::Shutdown(ShutdownEvent::StopFlag(false)),
                ServerEvent::Shutdown(ShutdownEvent::StopRequested),
                ServerEvent::Shutdown(ShutdownEvent::GraceElapsed),
                ServerEvent::Shutdown(ShutdownEvent::FlagSet),
                ServerEvent::Drained,
            ],
        ) == seq![
            ServerAction::<E>::Shutdown(ShutdownAction::AwaitExitOrStop),
            ServerAction::Shutdown(ShutdownAction::ReadStopRequested),
            ServerAction::Shutdown(ShutdownAction::AwaitStop),
            ServerAction::Shutdown(ShutdownAction::Sleep(policy.exit_grace)),
            ServerAction::Shutdown(ShutdownAction::SetShuttingDown),
            ServerAction::Drain,
            ServerAction::End(ServerEnd::Finished),
        ],
{
    let e0 = Seq::<ServerEvent<E>>::empty();
    let e1 = e0.push(ServerEvent::Shutdown(ShutdownEvent::Exited));
    let e2 = e1.push(ServerEvent::Shutdown(ShutdownEvent::StopFlag(false)));
    let e3 = e2.push(ServerEvent::Shutdown(ShutdownEvent::StopRequested));
    let e4 = e3.push(ServerEvent::Shutdown(ShutdownEvent::GraceElapsed));
    let e5 = e4.push(ServerEvent::Shutdown(ShutdownEvent::FlagSet));
    lemma_server_push(policy, e0, ServerEvent::Shutdown(ShutdownEvent::Exited));
    lemma_server_push(policy, e1, ServerEvent::Shutdown(ShutdownEvent::StopFlag(false)));
    lemma_server_push(policy, e2, ServerEvent::Shutdown(ShutdownEvent::StopRequested));
    lemma_server_push(policy, e3, ServerEvent::Shutdown(ShutdownEvent::GraceElapsed));
    lemma_server_push(policy, e4, ServerEvent::Shutdown(ShutdownEvent::FlagSet));
    lemma_server_push(policy, e5, ServerEvent::Drained);
    assert(seq![
        ServerEvent::<E>::Shutdown(ShutdownEvent::Exited),
        ServerEvent::Shutdown(ShutdownEvent::StopFlag(false)),
        ServerEvent::Shutdown(ShutdownEvent::StopRequested),
        ServerEvent::Shutdown(ShutdownEvent::GraceElapsed),
        ServerEvent::Shutdown(ShutdownEvent::FlagSet),
        ServerEvent::Drained,
    ] == e5.push(ServerEvent::Drained));
}

} // verus!
