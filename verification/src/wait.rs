//! What a request to wait asks of the session.

use crate::time;
use std::time::Duration;
use vstd::prelude::*;

verus! {

/// Default wait timeout in milliseconds.
pub const WAIT_DEFAULT_TIMEOUT_MS: u64 = 10_000;

/// Maximum wait timeout in milliseconds.
pub const WAIT_MAX_TIMEOUT_MS: u64 = 120_000;

/// Query parameters for wait endpoint: exactly one condition must be set.
#[derive(Debug, PartialEq)]
pub struct WaitParams {
    /// Wait until this text appears on screen.
    pub text: Option<String>,
    /// Wait until this regex matches the screen text.
    pub regex: Option<String>,
    /// Wait until this text is absent from the screen.
    pub gone: Option<String>,
    /// Wait until the grid has been unchanged for this many milliseconds.
    pub stable_ms: Option<u64>,
    /// Timeout in milliseconds (default 10000, capped at 120000).
    pub timeout_ms: Option<u64>,
}

/// What the screen has to come to.
#[derive(Debug, PartialEq)]
pub enum WaitCondition {
    /// The text appears.
    Text(String),
    /// The regex matches.
    Regex(String),
    /// The text is absent.
    Gone(String),
    /// Nothing changes for this many milliseconds.
    StableMs(u64),
}

/// A wait that can be handed to the session.
#[derive(Debug, PartialEq)]
pub struct WaitPlan {
    pub condition: WaitCondition,
    pub timeout_ms: u64,
}

impl Default for WaitParams {
    fn default() -> (params: Self)
        ensures
            params.conditions() == Seq::<WaitCondition>::empty(),
            params.text is None,
            params.regex is None,
            params.gone is None,
            params.stable_ms is None,
            params.timeout_ms is None,
    {
        WaitParams { text: None, regex: None, gone: None, stable_ms: None, timeout_ms: None }
    }
}

/// The row of at most one item.
pub open spec fn optional_item(item: Option<WaitCondition>) -> Seq<WaitCondition> {
    match item {
        Some(item) => seq![item],
        None => Seq::empty(),
    }
}

impl WaitParams {
    /// The conditions that are set, in the order of the fields.
    pub open spec fn conditions(self) -> Seq<WaitCondition> {
        let text = match self.text {
            Some(s) => Some(WaitCondition::Text(s)),
            None => None,
        };
        let regex = match self.regex {
            Some(s) => Some(WaitCondition::Regex(s)),
            None => None,
        };
        let gone = match self.gone {
            Some(s) => Some(WaitCondition::Gone(s)),
            None => None,
        };
        let stable = match self.stable_ms {
            Some(ms) => Some(WaitCondition::StableMs(ms)),
            None => None,
        };
        optional_item(text) + optional_item(regex) + optional_item(gone) + optional_item(stable)
    }

    /// The timeout that the parameters ask for.
    pub open spec fn asked_timeout_ms(self) -> u64 {
        let ms = match self.timeout_ms {
            Some(ms) => ms,
            None => WAIT_DEFAULT_TIMEOUT_MS,
        };
        if ms <= WAIT_MAX_TIMEOUT_MS {
            ms
        } else {
            WAIT_MAX_TIMEOUT_MS
        }
    }

    /// The wait that the parameters denote: one where exactly one condition is set.
    pub open spec fn asked_plan(self) -> Option<WaitPlan> {
        if self.conditions().len() == 1 {
            Some(
                WaitPlan { condition: self.conditions()[0], timeout_ms: self.asked_timeout_ms() },
            )
        } else {
            None
        }
    }
}

/// The wait for a request; none where zero or several conditions are set.
pub fn plan_wait(params: WaitParams) -> (plan: Option<WaitPlan>)
    ensures
        plan == params.asked_plan(),
{
    let ghost asked = params;
    let mut conditions: Vec<WaitCondition> = Vec::new();
    if let Some(text) = params.text {
        conditions.push(WaitCondition::Text(text));
    }
    if let Some(pattern) = params.regex {
        conditions.push(WaitCondition::Regex(pattern));
    }
    if let Some(text) = params.gone {
        conditions.push(WaitCondition::Gone(text));
    }
    if let Some(ms) = params.stable_ms {
        conditions.push(WaitCondition::StableMs(ms));
    }
    assert(conditions@ == asked.conditions());
    let ms: u64 = match params.timeout_ms {
        Some(ms) => ms,
        None => WAIT_DEFAULT_TIMEOUT_MS,
    };
    let timeout_ms: u64 = if ms <= WAIT_MAX_TIMEOUT_MS {
        ms
    } else {
        WAIT_MAX_TIMEOUT_MS
    };
    if conditions.len() != 1 {
        return None;
    }
    match conditions.pop() {
        Some(condition) => Some(WaitPlan { condition, timeout_ms }),
        None => None,
    }
}

/// The timeout of a wait as a duration.
pub fn wait_timeout(timeout_ms: u64) -> (timeout: Duration)
    ensures
        time::duration_nanos(timeout) == timeout_ms * 1_000_000,
{
    Duration::from_millis(timeout_ms)
}

/// No wait is handed to the session that would last longer than the maximum.
pub proof fn law_timeout_is_capped(params: WaitParams)
    ensures
        params.asked_timeout_ms() <= WAIT_MAX_TIMEOUT_MS,
        params.timeout_ms is None ==> params.asked_timeout_ms() == WAIT_DEFAULT_TIMEOUT_MS,
        params.timeout_ms matches Some(ms) ==> params.asked_timeout_ms() <= ms,
        params.timeout_ms matches Some(ms) ==> ms <= WAIT_MAX_TIMEOUT_MS
            ==> params.asked_timeout_ms() == ms,
{
}

/// Setting one condition and no other is what makes a wait, and the wait is for
/// that condition.
pub proof fn law_exactly_one_condition(params: WaitParams)
    ensures
        params.asked_plan() is Some <==> {
            ||| params.text is Some && params.regex is None && params.gone is None
                && params.stable_ms is None
            ||| params.text is None && params.regex is Some && params.gone is None
                && params.stable_ms is None
            ||| params.text is None && params.regex is None && params.gone is Some
                && params.stable_ms is None
            ||| params.text is None && params.regex is None && params.gone is None
                && params.stable_ms is Some
        },
        params.asked_plan() matches Some(plan) ==> match plan.condition {
            WaitCondition::Text(s) => params.text == Some(s),
            WaitCondition::Regex(s) => params.regex == Some(s),
            WaitCondition::Gone(s) => params.gone == Some(s),
            WaitCondition::StableMs(ms) => params.stable_ms == Some(ms),
        },
{
}

/// A wait lasts as long as the request asks, whatever it waits for: the given time up
/// to two minutes, two minutes where more is given, and ten seconds where none is.
pub proof fn law_wait_lasts_as_asked(params: WaitParams)
    ensures
        params.asked_plan() matches Some(plan) ==> match params.timeout_ms {
            Some(ms) => plan.timeout_ms == if ms <= 120_000 {
                ms
            } else {
                120_000
            },
            None => plan.timeout_ms == 10_000,
        },
{
}

/// The timeout bears on nothing but the timeout, and the condition on nothing but the
/// condition.
pub proof fn law_timeout_and_condition_are_independent(a: WaitParams, b: WaitParams)
    requires
        a.asked_plan() is Some,
        b.asked_plan() is Some,
    ensures
        a.timeout_ms == b.timeout_ms ==> a.asked_plan().unwrap().timeout_ms
            == b.asked_plan().unwrap().timeout_ms,
        a.text == b.text && a.regex == b.regex && a.gone == b.gone && a.stable_ms == b.stable_ms
            ==> a.asked_plan().unwrap().condition == b.asked_plan().unwrap().condition,
{
}

/// A longer timeout is never answered by a shorter wait.
pub proof fn law_longer_timeout_waits_no_less(a: WaitParams, b: WaitParams, m: u64, n: u64)
    requires
        a.asked_plan() is Some,
        b.asked_plan() is Some,
        a.timeout_ms == Some(m),
        b.timeout_ms == Some(n),
        m <= n,
    ensures
        a.asked_plan().unwrap().timeout_ms <= b.asked_plan().unwrap().timeout_ms,
{
}

} // verus!
