//! The state that the poll loop keeps from tick to tick, and what each step
//! of a tick does to it.
//!
//! A tick goes: find the gateways, probe both paths and record what was found
//! (`record_connectivity`); where a speed test is due, run and record it
//! (`start_speed_check`, `record_speed`); decide, filter, and say what route
//! is to be set (`plan`); set it, and record whether that worked
//! (`complete`). The probing and the setting of routes are done by the
//! caller.

use crate::config::FailoverConfig;
use crate::decision::{
    active_role, clone_optional, decide, decision, role_of_active, Decision, DecisionView,
    Gateways, RouteState, SpeedReadings,
};
use crate::guard::{applies, elapsed, should_apply, switched, target_of};
use crate::health::{status_of, ConnectivityReport, HealthStatus, InterfaceMetrics};
use crate::network::RouteTarget;
use crate::speed::{InterfaceRole, SpeedEstimate};
use crate::text::text_of;
use vstd::prelude::*;

verus! {

/// Network status representing the current active interface
#[derive(Clone, Copy, Debug, PartialEq, Eq, Structural)]
pub enum NetworkStatus {
    /// Primary interface is active
    Primary,
    /// Secondary interface is active
    Secondary,
    /// No interface is able to reach the target
    Unavailable,
}

/// A route that is to be set.
#[derive(Debug, PartialEq, Eq)]
pub struct RouteChange {
    pub target: RouteTarget,
    pub interface: String,
    pub gateway: Option<String>,
}

/// What a tick came to: the decision, and the route to set if there is one.
#[derive(Debug, PartialEq, Eq)]
pub struct TickPlan {
    pub decision: Decision,
    pub change: Option<RouteChange>,
}

/// What the poll loop keeps between ticks.
#[derive(Debug, PartialEq, Eq)]
pub struct ControllerState {
    pub route: RouteState,
    pub primary: InterfaceMetrics,
    pub secondary: InterfaceMetrics,
    pub speeds: SpeedReadings,
    /// When the last speed test was due, in seconds.
    pub last_speed_check: u64,
}

/// The latency of a speed estimate; 0, which means not known, where there is
/// none.
pub open spec fn latency_of(estimate: Option<SpeedEstimate>) -> u64 {
    match estimate {
        Some(e) => e.latency_us,
        None => 0,
    }
}

/// The latency of a speed estimate, or 0 where there is none.
fn estimate_latency(estimate: Option<SpeedEstimate>) -> (r: u64)
    ensures
        r == latency_of(estimate),
{
    match estimate {
        Some(e) => e.latency_us,
        None => 0,
    }
}

/// What the routes of this monitor lead to.
pub open spec fn route_target(config: FailoverConfig) -> RouteTarget {
    if config.route_all_traffic {
        RouteTarget::Default
    } else {
        RouteTarget::Peer(config.peer_ip)
    }
}

/// The route state after a tick: the route of the plan, since `now`, where
/// there was one and it was set; the state as it was where there was none,
/// or where setting it failed.
pub open spec fn route_after(route: RouteState, change: Option<RouteChange>, succeeded: bool, now: u64)
    -> RouteState {
    match change {
        Some(c) => if succeeded {
            switched(c.interface, now)
        } else {
            route
        },
        None => route,
    }
}

impl ControllerState {
    /// The decision that `plan` takes in this state.
    pub open spec fn decision(self, config: FailoverConfig, gateways: Gateways) -> DecisionView {
        decision(
            config,
            self.route,
            self.primary.status,
            self.secondary.status,
            self.speeds,
            gateways,
        )
    }

    /// Which path carries the traffic: the active one, where the last check
    /// found it working.
    pub open spec fn carrier(self, config: FailoverConfig) -> NetworkStatus {
        match active_role(config, self.route.active_interface) {
            Some(InterfaceRole::Primary) => if self.primary.status == HealthStatus::Working {
                NetworkStatus::Primary
            } else {
                NetworkStatus::Unavailable
            },
            Some(InterfaceRole::Secondary) => if self.secondary.status == HealthStatus::Working {
                NetworkStatus::Secondary
            } else {
                NetworkStatus::Unavailable
            },
            None => NetworkStatus::Unavailable,
        }
    }

    /// The state at the start: no route set, nothing known of either path,
    /// and the first speed test due at once where the clock has run for an
    /// interval already.
    pub fn new(now: u64, speedtest_interval: u64) -> (r: Self)
        ensures
            r.route.active_interface is None,
            r.route.last_switch_time == now,
            r.primary.status == HealthStatus::Unknown,
            r.secondary.status == HealthStatus::Unknown,
            r.primary.connectivity_latency_us == 0 && r.primary.speed_latency_us == 0,
            r.secondary.connectivity_latency_us == 0 && r.secondary.speed_latency_us == 0,
            r.primary.test_results@.len() == 0 && r.secondary.test_results@.len() == 0,
            r.speeds.primary is None && r.speeds.secondary is None,
            r.last_speed_check == if now >= speedtest_interval {
                (now - speedtest_interval) as u64
            } else {
                now
            },
    {
        ControllerState {
            route: RouteState { active_interface: None, last_switch_time: now },
            primary: InterfaceMetrics::default(),
            secondary: InterfaceMetrics::default(),
            speeds: SpeedReadings { primary: None, secondary: None },
            last_speed_check: if now >= speedtest_interval {
                now - speedtest_interval
            } else {
                now
            },
        }
    }

    /// Takes in what the connectivity checks of a tick found. The status of
    /// a path comes from its check alone.
    pub fn record_connectivity(&mut self, primary: ConnectivityReport, secondary: ConnectivityReport)
        ensures
            final(self).primary.status == status_of(primary.working),
            final(self).primary.connectivity_latency_us == primary.latency_us,
            final(self).primary.test_results == primary.results,
            final(self).primary.speed_latency_us == old(self).primary.speed_latency_us,
            final(self).secondary.status == status_of(secondary.working),
            final(self).secondary.connectivity_latency_us == secondary.latency_us,
            final(self).secondary.test_results == secondary.results,
            final(self).secondary.speed_latency_us == old(self).secondary.speed_latency_us,
            final(self).speeds == old(self).speeds,
            final(self).route == old(self).route,
            final(self).last_speed_check == old(self).last_speed_check,
    {
        self.primary.status = if primary.working {
            HealthStatus::Working
        } else {
            HealthStatus::Failed
        };
        self.primary.connectivity_latency_us = primary.latency_us;
        self.primary.test_results = primary.results;
        self.secondary.status = if secondary.working {
            HealthStatus::Working
        } else {
            HealthStatus::Failed
        };
        self.secondary.connectivity_latency_us = secondary.latency_us;
        self.secondary.test_results = secondary.results;
    }

    /// Says whether the speed of the two paths is to be tested in this tick.
    ///
    /// A test is due when the last one was due at least `speedtest_interval`
    /// seconds ago. It then counts as made, and is run only where both paths
    /// work.
    pub fn start_speed_check(&mut self, config: &FailoverConfig, now: u64) -> (run: bool)
        ensures
            final(self).last_speed_check == if elapsed(old(self).last_speed_check, now)
                >= config.speedtest_interval {
                now
            } else {
                old(self).last_speed_check
            },
            run == (elapsed(old(self).last_speed_check, now) >= config.speedtest_interval && old(
                self,
            ).primary.status == HealthStatus::Working && old(self).secondary.status
                == HealthStatus::Working),
            final(self).route == old(self).route,
            final(self).primary == old(self).primary,
            final(self).secondary == old(self).secondary,
            final(self).speeds == old(self).speeds,
    {
        let waited: u64 = if now >= self.last_speed_check {
            now - self.last_speed_check
        } else {
            0
        };
        if waited >= config.speedtest_interval {
            self.last_speed_check = now;
            self.primary.status == HealthStatus::Working && self.secondary.status
                == HealthStatus::Working
        } else {
            false
        }
    }

    /// Takes in what a speed test found of the two paths.
    pub fn record_speed(&mut self, primary: Option<SpeedEstimate>, secondary: Option<SpeedEstimate>)
        ensures
            final(self).speeds == (SpeedReadings { primary, secondary }),
            final(self).primary.speed_latency_us == latency_of(primary),
            final(self).secondary.speed_latency_us == latency_of(secondary),
            final(self).primary.status == old(self).primary.status,
            final(self).primary.connectivity_latency_us == old(
                self,
            ).primary.connectivity_latency_us,
            final(self).primary.test_results == old(self).primary.test_results,
            final(self).secondary.status == old(self).secondary.status,
            final(self).secondary.connectivity_latency_us == old(
                self,
            ).secondary.connectivity_latency_us,
            final(self).secondary.test_results == old(self).secondary.test_results,
            final(self).route == old(self).route,
            final(self).last_speed_check == old(self).last_speed_check,
    {
        self.speeds = SpeedReadings { primary, secondary };
        self.primary.speed_latency_us = estimate_latency(primary);
        self.secondary.speed_latency_us = estimate_latency(secondary);
    }

    /// Decides, filters the decision through the guard against flapping, and
    /// says what route is to be set, if any. The state is not changed: where
    /// both paths failed, the route stays on the last interface that worked.
    pub fn plan(&self, config: &FailoverConfig, gateways: &Gateways, now: u64) -> (r: TickPlan)
        ensures
            r.decision@ == self.decision(*config, *gateways),
            r.change is Some <==> applies(
                r.decision@,
                self.route,
                now,
                config.min_switch_interval,
            ),
            r.change matches Some(c) ==> r.decision@ == DecisionView::UseInterface(
                c.interface@,
                text_of(c.gateway),
            ) && c.target == route_target(*config),
    {
        let decision = decide(
            config,
            &self.route,
            &self.primary,
            &self.secondary,
            &self.speeds,
            gateways,
        );
        let change = if should_apply(&decision, &self.route, now, config.min_switch_interval) {
            match &decision {
                Decision::UseInterface(name, gateway) => Some(
                    RouteChange {
                        target: if config.route_all_traffic {
                            RouteTarget::Default
                        } else {
                            RouteTarget::Peer(config.peer_ip.clone())
                        },
                        interface: name.clone(),
                        gateway: clone_optional(gateway),
                    },
                ),
                _ => None,
            }
        } else {
            None
        };
        TickPlan { decision, change }
    }

    /// Ends a tick: takes in whether the route of the plan was set. Without
    /// a route to set, and where setting it failed, the state stays as it
    /// is, so that the next tick decides on what is really there.
    pub fn complete(&mut self, plan: &TickPlan, succeeded: bool, now: u64)
        ensures
            final(self).route == route_after(old(self).route, plan.change, succeeded, now),
            final(self).primary == old(self).primary,
            final(self).secondary == old(self).secondary,
            final(self).speeds == old(self).speeds,
            final(self).last_speed_check == old(self).last_speed_check,
    {
        match &plan.change {
            Some(c) => {
                if succeeded {
                    self.route.active_interface = Some(c.interface.clone());
                    self.route.last_switch_time = now;
                }
            },
            None => {},
        }
    }

    /// Which path carries the traffic.
    pub fn status(&self, config: &FailoverConfig) -> (r: NetworkStatus)
        ensures
            r == self.carrier(*config),
    {
        match role_of_active(config, &self.route) {
            Some(InterfaceRole::Primary) => {
                if self.primary.status == HealthStatus::Working {
                    NetworkStatus::Primary
                } else {
                    NetworkStatus::Unavailable
                }
            },
            Some(InterfaceRole::Secondary) => {
                if self.secondary.status == HealthStatus::Working {
                    NetworkStatus::Secondary
                } else {
                    NetworkStatus::Unavailable
                }
            },
            None => NetworkStatus::Unavailable,
        }
    }
}

/// Where both paths have failed, the engine says so and names no target, the
/// guard lets nothing through, and the tick leaves the route state as it
/// was, whether or not anything else went wrong.
pub proof fn lemma_both_failed_keeps_route(
    state: ControllerState,
    config: FailoverConfig,
    gateways: Gateways,
    change: Option<RouteChange>,
    succeeded: bool,
    now: u64,
)
    requires
        state.primary.status == HealthStatus::Failed,
        state.secondary.status == HealthStatus::Failed,
        change is Some <==> applies(
            state.decision(config, gateways),
            state.route,
            now,
            config.min_switch_interval,
        ),
    ensures
        state.decision(config, gateways) == DecisionView::BothFailed,
        change is None,
        route_after(state.route, change, succeeded, now) == state.route,
{
}

/// The route state changes in a tick only where the decision named an
/// interface, the guard let it through and the route was set; it then holds
/// that interface and the time of the tick.
pub proof fn lemma_route_changes_only_when_applied(
    state: ControllerState,
    config: FailoverConfig,
    gateways: Gateways,
    change: Option<RouteChange>,
    succeeded: bool,
    now: u64,
)
    requires
        change is Some <==> applies(
            state.decision(config, gateways),
            state.route,
            now,
            config.min_switch_interval,
        ),
        change matches Some(c) ==> state.decision(config, gateways) == DecisionView::UseInterface(
            c.interface@,
            text_of(c.gateway),
        ),
    ensures
        route_after(state.route, change, succeeded, now) != state.route ==> succeeded && applies(
            state.decision(config, gateways),
            state.route,
            now,
            config.min_switch_interval,
        ) && state.decision(config, gateways) !is NoChange,
        !succeeded ==> route_after(state.route, change, succeeded, now) == state.route,
        succeeded && change is Some ==> route_after(
            state.route,
            change,
            succeeded,
            now,
        ).last_switch_time == now && text_of(
            route_after(state.route, change, succeeded, now).active_interface,
        ) == target_of(state.decision(config, gateways)),
{
}

} // verus!
