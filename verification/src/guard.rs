//! The guard against flapping: a change of path is held back while the last
//! one is too recent.

use crate::decision::{Decision, DecisionView, RouteState};
use vstd::prelude::*;

verus! {

/// The seconds from `since` to `now`; none where the clock went back.
pub open spec fn elapsed(since: u64, now: u64) -> nat {
    if now >= since {
        (now - since) as nat
    } else {
        0
    }
}

/// The interface that a decision asks for, if it asks for one.
pub open spec fn target_of(d: DecisionView) -> Option<Seq<char>> {
    match d {
        DecisionView::UseInterface(name, _) => Some(name),
        _ => None,
    }
}

/// A decision asks for a change when it names an interface other than the one
/// that is active.
pub open spec fn requests_change(d: DecisionView, route: RouteState) -> bool {
    match (target_of(d), route.active_interface) {
        (Some(name), Some(active)) => name != active@,
        _ => false,
    }
}

/// Whether a decision is to be carried out now.
///
/// A decision that names no interface is not. One that names an interface
/// is, while no route has been set yet. After that it is only if it asks for
/// a change, and the last change is at least `min_switch_interval` seconds
/// old. A decision that is held back is dropped, not kept for later.
pub open spec fn applies(d: DecisionView, route: RouteState, now: u64, min_switch_interval: u64)
    -> bool {
    match target_of(d) {
        Some(name) => route.active_interface is None || (requests_change(d, route) && elapsed(
            route.last_switch_time,
            now,
        ) >= min_switch_interval),
        None => false,
    }
}

/// The route state once the route has been put on `interface` at `at`.
pub open spec fn switched(interface: String, at: u64) -> RouteState {
    RouteState { active_interface: Some(interface), last_switch_time: at }
}

/// Whether the decision is to be carried out now: see `applies`.
pub fn should_apply(decision: &Decision, route: &RouteState, now: u64, min_switch_interval: u64)
    -> (r: bool)
    ensures
        r == applies(decision@, *route, now, min_switch_interval),
{
    match decision {
        Decision::UseInterface(name, _) => match &route.active_interface {
            None => true,
            Some(active) => {
                let waited: u64 = if now >= route.last_switch_time {
                    now - route.last_switch_time
                } else {
                    0
                };
                !(*name == *active) && waited >= min_switch_interval
            },
        },
        _ => false,
    }
}

/// Two changes do not follow each other within `min_switch_interval`
/// seconds: once a decision was carried out at `first_at`, a decision that
/// asks for another change less than the interval later is held back, and one
/// that asks for it when the interval has passed is carried out.
pub proof fn lemma_flapping_is_held_back(
    route: RouteState,
    first: DecisionView,
    interface: String,
    first_at: u64,
    second: DecisionView,
    second_at: u64,
    third: DecisionView,
    third_at: u64,
    min_switch_interval: u64,
)
    requires
        applies(first, route, first_at, min_switch_interval),
        target_of(first) == Some(interface@),
        requests_change(second, switched(interface, first_at)),
        requests_change(third, switched(interface, first_at)),
        first_at <= second_at,
        second_at - first_at < min_switch_interval,
        first_at <= third_at,
        third_at - first_at >= min_switch_interval,
    ensures
        !applies(second, switched(interface, first_at), second_at, min_switch_interval),
        applies(third, switched(interface, first_at), third_at, min_switch_interval),
{
}

/// After a switch nothing is carried out until the interval has passed:
/// whatever is decided less than `min_switch_interval` seconds after the route
/// was put on an interface, the route stays where it is.
pub proof fn lemma_quiet_after_switch(
    interface: String,
    switched_at: u64,
    d: DecisionView,
    now: u64,
    min_switch_interval: u64,
)
    requires
        switched_at <= now,
        now - switched_at < min_switch_interval,
    ensures
        !applies(d, switched(interface, switched_at), now, min_switch_interval),
{
}

/// The same decision is carried out once: when the route has been put on the
/// interface that a decision names, that decision, taken again at any later
/// tick, is not carried out again.
pub proof fn lemma_same_decision_applies_once(
    interface: String,
    gateway: Option<Seq<char>>,
    first_at: u64,
    second_at: u64,
    min_switch_interval: u64,
)
    ensures
        !applies(
            DecisionView::UseInterface(interface@, gateway),
            switched(interface, first_at),
            second_at,
            min_switch_interval,
        ),
{
}

/// Before the first route is set, a decision that names an interface is
/// carried out at once, however short the time since the start.
pub proof fn lemma_first_route_is_not_held_back(
    route: RouteState,
    d: DecisionView,
    now: u64,
    min_switch_interval: u64,
)
    requires
        route.active_interface is None,
        target_of(d) is Some,
    ensures
        applies(d, route, now, min_switch_interval),
{
}

} // verus!
