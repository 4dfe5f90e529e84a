//! The decision engine: which of the two paths should carry the traffic.
//!
//! Two healthy paths are compared relative to the one that is active now, never
//! the secondary against the primary as such: that keeps the traffic from
//! going back and forth while the two are close.

use crate::config::FailoverConfig;
use crate::health::{path_works, status_of, HealthStatus, InterfaceMetrics};
use crate::network::ProbeOutcome;
use crate::speed::{InterfaceRole, SpeedEstimate};
use crate::text::text_of;
use vstd::prelude::*;

verus! {

/// Where the traffic goes now, and since when.
///
/// `active_interface` is `None` from the start until the first route has been
/// set. Both fields change together, and only when a route was in fact set.
#[derive(Debug, PartialEq, Eq)]
pub struct RouteState {
    /// The name of the interface that the route was last put on.
    pub active_interface: Option<String>,
    /// When it was put there, in seconds.
    pub last_switch_time: u64,
}

impl Clone for RouteState {
    fn clone(&self) -> (r: Self)
        ensures
            r == *self,
    {
        RouteState {
            active_interface: clone_optional(&self.active_interface),
            last_switch_time: self.last_switch_time,
        }
    }
}

/// What the engine decides on the level of the two roles.
#[derive(Clone, Copy, Debug, PartialEq, Eq, Structural)]
pub enum PathChoice {
    /// Traffic should go over this path.
    Use(InterfaceRole),
    /// Nothing speaks for a change.
    NoChange,
    /// Neither path works.
    BothFailed,
}

/// What the engine decides: a value, held nowhere.
#[derive(Debug, PartialEq, Eq)]
pub enum Decision {
    /// Traffic should go over the interface of this name, through this gateway
    /// if there is one.
    UseInterface(String, Option<String>),
    /// Nothing speaks for a change.
    NoChange,
    /// Neither path works; the engine names no target.
    BothFailed,
}

impl Clone for Decision {
    fn clone(&self) -> (r: Self)
        ensures
            r == *self,
    {
        match self {
            Decision::UseInterface(name, gateway) => Decision::UseInterface(
                name.clone(),
                clone_optional(gateway),
            ),
            Decision::NoChange => Decision::NoChange,
            Decision::BothFailed => Decision::BothFailed,
        }
    }
}

/// A decision as a mathematical value.
pub enum DecisionView {
    UseInterface(Seq<char>, Option<Seq<char>>),
    NoChange,
    BothFailed,
}

impl View for Decision {
    type V = DecisionView;

    open spec fn view(&self) -> DecisionView {
        match *self {
            Decision::UseInterface(name, gateway) => DecisionView::UseInterface(
                name@,
                text_of(gateway),
            ),
            Decision::NoChange => DecisionView::NoChange,
            Decision::BothFailed => DecisionView::BothFailed,
        }
    }
}

/// The latest speed estimate of each path, where there is one.
#[derive(Clone, Copy, Debug, PartialEq, Eq)]
pub struct SpeedReadings {
    pub primary: Option<SpeedEstimate>,
    pub secondary: Option<SpeedEstimate>,
}

/// The gateway of each path, where it has one.
#[derive(Debug, PartialEq, Eq)]
pub struct Gateways {
    pub primary: Option<String>,
    pub secondary: Option<String>,
}

/// There is an estimate, and neither its quality nor its latency is 0.
pub open spec fn has_usable_figure(estimate: Option<SpeedEstimate>) -> bool {
    estimate matches Some(e) && e.download_quality > 0 && e.latency_us > 0
}

/// The quality that a comparison may use: that of the estimate, and 0, which
/// means none, where there is no estimate or the estimate has no latency. A
/// path whose latency is not known has no usable figure, whatever its
/// quality says.
pub open spec fn usable_quality(estimate: Option<SpeedEstimate>) -> nat {
    match estimate {
        Some(e) => if e.latency_us == 0 {
            0
        } else {
            e.download_quality as nat
        },
        None => 0,
    }
}

/// Whether `candidate` is better than `active` by at least `threshold`
/// percent of `active`. The bound counts as reached. A quality of 0 is no
/// figure at all, and nothing is compared with it.
pub open spec fn improvement_reaches(candidate: nat, active: nat, threshold: nat) -> bool {
    candidate > 0 && active > 0 && (candidate - active) * 100 >= threshold * active
}

/// The choice between two working paths.
///
/// With a usable quality for both, the path that is not active is taken where
/// it is better than the active one by the threshold, and nothing changes
/// where it is not. Without, and where neither is active, the primary is
/// preferred: it is taken unless it is active already.
pub open spec fn both_working(
    active: Option<InterfaceRole>,
    primary_quality: nat,
    secondary_quality: nat,
    threshold: nat,
) -> PathChoice {
    if primary_quality > 0 && secondary_quality > 0 {
        match active {
            Some(InterfaceRole::Primary) => if improvement_reaches(
                secondary_quality,
                primary_quality,
                threshold,
            ) {
                PathChoice::Use(InterfaceRole::Secondary)
            } else {
                PathChoice::NoChange
            },
            Some(InterfaceRole::Secondary) => if improvement_reaches(
                primary_quality,
                secondary_quality,
                threshold,
            ) {
                PathChoice::Use(InterfaceRole::Primary)
            } else {
                PathChoice::NoChange
            },
            None => PathChoice::Use(InterfaceRole::Primary),
        }
    } else {
        match active {
            Some(InterfaceRole::Primary) => PathChoice::NoChange,
            _ => PathChoice::Use(InterfaceRole::Primary),
        }
    }
}

/// The choice of the engine.
///
/// A path that alone works is taken. Two failed paths give `BothFailed`. Two
/// working paths are compared. As long as a path has not been checked, nothing
/// changes.
pub open spec fn select_path(
    primary: HealthStatus,
    secondary: HealthStatus,
    active: Option<InterfaceRole>,
    primary_quality: nat,
    secondary_quality: nat,
    threshold: nat,
) -> PathChoice {
    match (primary, secondary) {
        (HealthStatus::Working, HealthStatus::Failed) => PathChoice::Use(InterfaceRole::Primary),
        (HealthStatus::Failed, HealthStatus::Working) => PathChoice::Use(
            InterfaceRole::Secondary,
        ),
        (HealthStatus::Working, HealthStatus::Working) => both_working(
            active,
            primary_quality,
            secondary_quality,
            threshold,
        ),
        (HealthStatus::Failed, HealthStatus::Failed) => PathChoice::BothFailed,
        _ => PathChoice::NoChange,
    }
}

/// Which of the two paths the active interface is, if it is one of them.
pub open spec fn active_role(config: FailoverConfig, active: Option<String>) -> Option<
    InterfaceRole,
> {
    match active {
        Some(name) => if name@ == config.primary_interface@ {
            Some(InterfaceRole::Primary)
        } else if name@ == config.secondary_interface@ {
            Some(InterfaceRole::Secondary)
        } else {
            None
        },
        None => None,
    }
}

/// A choice with the name and the gateway of the path that it takes.
pub open spec fn named(choice: PathChoice, config: FailoverConfig, gateways: Gateways)
    -> DecisionView {
    match choice {
        PathChoice::Use(InterfaceRole::Primary) => DecisionView::UseInterface(
            config.primary_interface@,
            text_of(gateways.primary),
        ),
        PathChoice::Use(InterfaceRole::Secondary) => DecisionView::UseInterface(
            config.secondary_interface@,
            text_of(gateways.secondary),
        ),
        PathChoice::NoChange => DecisionView::NoChange,
        PathChoice::BothFailed => DecisionView::BothFailed,
    }
}

/// The decision of the engine for one tick.
pub open spec fn decision(
    config: FailoverConfig,
    route: RouteState,
    primary: HealthStatus,
    secondary: HealthStatus,
    speeds: SpeedReadings,
    gateways: Gateways,
) -> DecisionView {
    named(
        select_path(
            primary,
            secondary,
            active_role(config, route.active_interface),
            usable_quality(speeds.primary),
            usable_quality(speeds.secondary),
            config.speed_threshold as nat,
        ),
        config,
        gateways,
    )
}

/// Whether `candidate` is better than `active` by at least `threshold` percent.
pub fn beats(candidate: u32, active: u32, threshold: u8) -> (r: bool)
    ensures
        r == improvement_reaches(candidate as nat, active as nat, threshold as nat),
{
    if candidate == 0 || active == 0 || candidate < active {
        assert(candidate < active && active > 0 ==> (candidate - active) * 100 < threshold
            * active) by (nonlinear_arith);
        return false;
    }
    let gain: u64 = (candidate - active) as u64 * 100;
    assert(threshold * active <= 255 * 0xffff_ffff) by (nonlinear_arith)
        requires
            threshold <= 255,
            active <= 0xffff_ffff,
    ;
    let bound: u64 = threshold as u64 * active as u64;
    gain >= bound
}

/// Chooses between the two paths, on the level of the roles.
pub fn choose_path(
    primary: HealthStatus,
    secondary: HealthStatus,
    active: Option<InterfaceRole>,
    primary_quality: u32,
    secondary_quality: u32,
    threshold: u8,
) -> (r: PathChoice)
    ensures
        r == select_path(
            primary,
            secondary,
            active,
            primary_quality as nat,
            secondary_quality as nat,
            threshold as nat,
        ),
{
    match (primary, secondary) {
        (HealthStatus::Working, HealthStatus::Failed) => PathChoice::Use(InterfaceRole::Primary),
        (HealthStatus::Failed, HealthStatus::Working) => PathChoice::Use(
            InterfaceRole::Secondary,
        ),
        (HealthStatus::Failed, HealthStatus::Failed) => PathChoice::BothFailed,
        (HealthStatus::Working, HealthStatus::Working) => {
            if primary_quality > 0 && secondary_quality > 0 {
                match active {
                    Some(InterfaceRole::Primary) => {
                        if beats(secondary_quality, primary_quality, threshold) {
                            PathChoice::Use(InterfaceRole::Secondary)
                        } else {
                            PathChoice::NoChange
                        }
                    },
                    Some(InterfaceRole::Secondary) => {
                        if beats(primary_quality, secondary_quality, threshold) {
                            PathChoice::Use(InterfaceRole::Primary)
                        } else {
                            PathChoice::NoChange
                        }
                    },
                    None => PathChoice::Use(InterfaceRole::Primary),
                }
            } else {
                match active {
                    Some(InterfaceRole::Primary) => PathChoice::NoChange,
                    _ => PathChoice::Use(InterfaceRole::Primary),
                }
            }
        },
        _ => PathChoice::NoChange,
    }
}

/// Which of the two paths the active interface is, if it is one of them.
pub fn role_of_active(config: &FailoverConfig, route: &RouteState) -> (r: Option<InterfaceRole>)
    ensures
        r == active_role(*config, route.active_interface),
{
    match &route.active_interface {
        Some(name) => {
            if *name == config.primary_interface {
                Some(InterfaceRole::Primary)
            } else if *name == config.secondary_interface {
                Some(InterfaceRole::Secondary)
            } else {
                None
            }
        },
        None => None,
    }
}

/// The quality of an estimate that a comparison may use.
pub fn quality_of(estimate: Option<SpeedEstimate>) -> (r: u32)
    ensures
        r == usable_quality(estimate),
{
    match estimate {
        Some(e) => if e.latency_us == 0 {
            0
        } else {
            e.download_quality
        },
        None => 0,
    }
}

/// A copy of a string that may be missing.
pub fn clone_optional(s: &Option<String>) -> (r: Option<String>)
    ensures
        r == *s,
{
    match s {
        Some(s) => Some(s.clone()),
        None => None,
    }
}

/// Decides where the traffic should go, from the health and the speed of the
/// two paths and from where it goes now. Nothing is changed by deciding.
pub fn decide(
    config: &FailoverConfig,
    route: &RouteState,
    primary: &InterfaceMetrics,
    secondary: &InterfaceMetrics,
    speeds: &SpeedReadings,
    gateways: &Gateways,
) -> (d: Decision)
    ensures
        d@ == decision(*config, *route, primary.status, secondary.status, *speeds, *gateways),
{
    let choice = choose_path(
        primary.status,
        secondary.status,
        role_of_active(config, route),
        quality_of(speeds.primary),
        quality_of(speeds.secondary),
        config.speed_threshold,
    );
    match choice {
        PathChoice::Use(InterfaceRole::Primary) => Decision::UseInterface(
            config.primary_interface.clone(),
            clone_optional(&gateways.primary),
        ),
        PathChoice::Use(InterfaceRole::Secondary) => Decision::UseInterface(
            config.secondary_interface.clone(),
            clone_optional(&gateways.secondary),
        ),
        PathChoice::NoChange => Decision::NoChange,
        PathChoice::BothFailed => Decision::BothFailed,
    }
}

/// Whatever the probes of a tick were: where those of the primary path show
/// it working and those of the secondary show it failed, the primary is
/// taken, and the other way round. What is active, and what the speeds are,
/// plays no part.
pub proof fn lemma_sole_working_path_is_taken(
    config: FailoverConfig,
    route: RouteState,
    working: Seq<ProbeOutcome>,
    failed: Seq<ProbeOutcome>,
    speeds: SpeedReadings,
    gateways: Gateways,
)
    requires
        path_works(working),
        !path_works(failed),
    ensures
        decision(
            config,
            route,
            status_of(path_works(working)),
            status_of(path_works(failed)),
            speeds,
            gateways,
        ) == DecisionView::UseInterface(config.primary_interface@, text_of(gateways.primary)),
        decision(
            config,
            route,
            status_of(path_works(failed)),
            status_of(path_works(working)),
            speeds,
            gateways,
        ) == DecisionView::UseInterface(config.secondary_interface@, text_of(gateways.secondary)),
{
}

/// Where the probes of both paths show them failed, the engine names no
/// target.
pub proof fn lemma_both_failed(
    config: FailoverConfig,
    route: RouteState,
    primary: Seq<ProbeOutcome>,
    secondary: Seq<ProbeOutcome>,
    speeds: SpeedReadings,
    gateways: Gateways,
)
    requires
        !path_works(primary),
        !path_works(secondary),
    ensures
        decision(
            config,
            route,
            status_of(path_works(primary)),
            status_of(path_works(secondary)),
            speeds,
            gateways,
        ) == DecisionView::BothFailed,
{
}

/// With both paths working and the secondary active, the traffic goes back
/// to the primary, unless there is a usable quality for both and the primary
/// is not better than the secondary by the threshold: then nothing changes.
/// The primary is measured against the secondary, the active one, and never
/// against itself.
pub proof fn lemma_return_to_primary(
    config: FailoverConfig,
    route: RouteState,
    speeds: SpeedReadings,
    gateways: Gateways,
)
    requires
        config.valid(),
        route.active_interface matches Some(name) && name@ == config.secondary_interface@,
    ensures
        ({
            let p = usable_quality(speeds.primary);
            let s = usable_quality(speeds.secondary);
            let d = decision(
                config,
                route,
                HealthStatus::Working,
                HealthStatus::Working,
                speeds,
                gateways,
            );
            if p > 0 && s > 0 && (p - s) * 100 < config.speed_threshold * s {
                d == DecisionView::NoChange
            } else {
                d == DecisionView::UseInterface(
                    config.primary_interface@,
                    text_of(gateways.primary),
                )
            }
        }),
{
}

/// With both paths working and the primary active, the traffic leaves the
/// primary only where there is a usable quality for both and the secondary
/// is better than the primary by the threshold.
pub proof fn lemma_leave_primary(
    config: FailoverConfig,
    route: RouteState,
    speeds: SpeedReadings,
    gateways: Gateways,
)
    requires
        route.active_interface matches Some(name) && name@ == config.primary_interface@,
    ensures
        ({
            let p = usable_quality(speeds.primary);
            let s = usable_quality(speeds.secondary);
            let d = decision(
                config,
                route,
                HealthStatus::Working,
                HealthStatus::Working,
                speeds,
                gateways,
            );
            if p > 0 && s > 0 && (s - p) * 100 >= config.speed_threshold * p {
                d == DecisionView::UseInterface(
                    config.secondary_interface@,
                    text_of(gateways.secondary),
                )
            } else {
                d == DecisionView::NoChange
            }
        }),
{
}

/// The threshold counts as reached: an improvement of exactly `threshold`
/// percent makes the engine switch, from either path to the other.
pub proof fn lemma_threshold_is_inclusive(candidate: nat, active: nat, threshold: nat)
    requires
        active > 0,
        (candidate - active) * 100 == threshold * active,
    ensures
        improvement_reaches(candidate, active, threshold),
        both_working(Some(InterfaceRole::Primary), active, candidate, threshold) == PathChoice::Use(
            InterfaceRole::Secondary,
        ),
        both_working(Some(InterfaceRole::Secondary), candidate, active, threshold)
            == PathChoice::Use(InterfaceRole::Primary),
{
    assert(candidate >= active) by (nonlinear_arith)
        requires
            active > 0,
            threshold >= 0,
            (candidate - active) * 100 == threshold * active,
    ;
}

/// An improvement below the threshold, however little, does not make the
/// engine switch.
pub proof fn lemma_below_threshold_stays(candidate: nat, active: nat, threshold: nat)
    requires
        (candidate - active) * 100 < threshold * active,
    ensures
        !improvement_reaches(candidate, active, threshold),
        both_working(Some(InterfaceRole::Primary), active, candidate, threshold)
            == PathChoice::NoChange,
{
}

/// A secondary path without a usable quality is never switched to while
/// both paths work, whatever the threshold, the primary's quality and the
/// active path are.
pub proof fn lemma_unmeasured_secondary_is_not_taken(
    active: Option<InterfaceRole>,
    primary_quality: nat,
    threshold: nat,
)
    ensures
        select_path(
            HealthStatus::Working,
            HealthStatus::Working,
            active,
            primary_quality,
            0,
            threshold,
        ) != PathChoice::Use(InterfaceRole::Secondary),
        active == Some(InterfaceRole::Primary) ==> select_path(
            HealthStatus::Working,
            HealthStatus::Working,
            active,
            primary_quality,
            0,
            threshold,
        ) == PathChoice::NoChange,
{
}

/// A quality may be used exactly where the estimate is there and neither its
/// quality nor its latency is 0.
pub proof fn lemma_usable_quality(estimate: Option<SpeedEstimate>)
    ensures
        usable_quality(estimate) > 0 <==> has_usable_figure(estimate),
        has_usable_figure(estimate) ==> usable_quality(estimate) == estimate->0.download_quality,
{
}

/// Without a usable figure for both paths nothing is compared: where an
/// estimate is missing, or has quality 0 or latency 0, two working paths are
/// chosen between as if there were no speed data at all. The primary is taken
/// unless it is active already, and the secondary is never switched to.
pub proof fn lemma_unknown_speed_is_not_compared(
    config: FailoverConfig,
    route: RouteState,
    speeds: SpeedReadings,
    gateways: Gateways,
)
    requires
        !has_usable_figure(speeds.primary) || !has_usable_figure(speeds.secondary),
    ensures
        decision(
            config,
            route,
            HealthStatus::Working,
            HealthStatus::Working,
            speeds,
            gateways,
        ) == if active_role(config, route.active_interface) == Some(InterfaceRole::Primary) {
            DecisionView::NoChange
        } else {
            DecisionView::UseInterface(config.primary_interface@, text_of(gateways.primary))
        },
{
}

} // verus!
