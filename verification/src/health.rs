//! The health of one path, from the probes that were sent over it.

use crate::network::ProbeOutcome;
use vstd::prelude::*;

verus! {

/// Whether a path carries traffic, as far as the last check could tell.
#[derive(Clone, Copy, Debug, PartialEq, Eq, Structural)]
pub enum HealthStatus {
    /// The last connectivity check found the path working.
    Working,
    /// The last connectivity check found the path failed.
    Failed,
    /// No connectivity check has been made yet.
    Unknown,
}

/// One target of a connectivity check, with what the probe of it found.
#[derive(Debug, PartialEq, Eq)]
pub struct TargetProbe {
    pub target: String,
    pub outcome: ProbeOutcome,
}

/// Whether one target was reached.
#[derive(Debug, PartialEq, Eq)]
pub struct TargetResult {
    pub target: String,
    pub reachable: bool,
}

/// What a connectivity check over one interface found.
#[derive(Debug, PartialEq, Eq)]
pub struct ConnectivityReport {
    /// Whether the interface counts as working.
    pub working: bool,
    /// Mean latency of the probes that measured one, in microseconds; 0 where
    /// none did.
    pub latency_us: u64,
    /// The targets in the order in which they were probed.
    pub results: Vec<TargetResult>,
}

/// What is known of one interface.
///
/// `status` and `connectivity_latency_us` come from the last connectivity
/// check alone; `speed_latency_us` is written by speed tests only. A latency
/// of 0 is one that is not known.
#[derive(Debug, PartialEq, Eq)]
pub struct InterfaceMetrics {
    pub status: HealthStatus,
    pub connectivity_latency_us: u64,
    pub speed_latency_us: u64,
    pub test_results: Vec<TargetResult>,
}

/// The probe reached its target and measured a latency.
pub open spec fn is_timed(p: ProbeOutcome) -> bool {
    p.reachable && p.latency_us > 0
}

/// How many of the probes reached their target.
pub open spec fn reached(s: Seq<ProbeOutcome>) -> nat
    decreases s.len(),
{
    if s.len() == 0 {
        0
    } else {
        reached(s.drop_last()) + if s.last().reachable {
            1nat
        } else {
            0nat
        }
    }
}

/// How many of the probes measured a latency.
pub open spec fn timed(s: Seq<ProbeOutcome>) -> nat
    decreases s.len(),
{
    if s.len() == 0 {
        0
    } else {
        timed(s.drop_last()) + if is_timed(s.last()) {
            1nat
        } else {
            0nat
        }
    }
}

/// The sum of the latencies that the probes measured.
pub open spec fn latency_total(s: Seq<ProbeOutcome>) -> nat
    decreases s.len(),
{
    if s.len() == 0 {
        0
    } else {
        latency_total(s.drop_last()) + if is_timed(s.last()) {
            s.last().latency_us as nat
        } else {
            0nat
        }
    }
}

/// The mean of the latencies that the probes measured, rounded down; 0 where
/// none measured one. A probe that reached its target without a latency does
/// not count as one that took no time: it is left out.
pub open spec fn mean_latency(s: Seq<ProbeOutcome>) -> nat {
    if timed(s) == 0 {
        0
    } else {
        latency_total(s) / timed(s)
    }
}

/// A path works when at least one probe, and at least half of them, reached
/// the target.
pub open spec fn path_works(s: Seq<ProbeOutcome>) -> bool {
    reached(s) > 0 && 2 * reached(s) >= s.len()
}

/// The status that a connectivity check gives a path.
pub open spec fn status_of(working: bool) -> HealthStatus {
    if working {
        HealthStatus::Working
    } else {
        HealthStatus::Failed
    }
}

/// What the probes of a check found, without their targets.
pub open spec fn outcomes_of(probes: Seq<TargetProbe>) -> Seq<ProbeOutcome> {
    Seq::new(probes.len(), |i: int| probes[i].outcome)
}

/// The counts and the sum stay within what the number of probes allows.
pub proof fn lemma_tally_bounds(s: Seq<ProbeOutcome>)
    ensures
        reached(s) <= s.len(),
        timed(s) <= reached(s),
        latency_total(s) <= timed(s) * u64::MAX,
        mean_latency(s) <= u64::MAX,
    decreases s.len(),
{
    if s.len() > 0 {
        lemma_tally_bounds(s.drop_last());
    }
    let total = latency_total(s) as int;
    let count = timed(s) as int;
    if count > 0 {
        assert(total / count <= u64::MAX) by (nonlinear_arith)
            requires
                0 <= total <= count * u64::MAX,
                count > 0,
        ;
    }
}

/// What a run of probes comes to.
#[derive(Clone, Copy, Debug, PartialEq, Eq)]
pub struct ProbeStats {
    /// How many probes were sent.
    pub sent: usize,
    /// How many of them reached their target.
    pub reached: usize,
    /// Mean latency of those that measured one, in microseconds; 0 where none
    /// did.
    pub latency_us: u64,
}

/// Counts the probes that reached their target, and takes the mean of the
/// latencies that were measured.
pub fn probe_stats(outcomes: &[ProbeOutcome]) -> (r: ProbeStats)
    ensures
        r.sent == outcomes@.len(),
        r.reached == reached(outcomes@),
        r.latency_us == mean_latency(outcomes@),
{
    let mut reached_so_far: usize = 0;
    let mut timed_so_far: usize = 0;
    let mut total: u128 = 0;
    let mut i: usize = 0;
    assert(outcomes@.take(0) =~= Seq::<ProbeOutcome>::empty());
    while i < outcomes.len()
        invariant
            i <= outcomes.len(),
            reached_so_far == reached(outcomes@.take(i as int)),
            timed_so_far == timed(outcomes@.take(i as int)),
            total == latency_total(outcomes@.take(i as int)),
        decreases outcomes.len() - i,
    {
        let p = outcomes[i];
        proof {
            assert(outcomes@.take(i + 1).drop_last() =~= outcomes@.take(i as int));
            assert(outcomes@.take(i + 1).last() == p);
            lemma_tally_bounds(outcomes@.take(i as int));
            lemma_tally_bounds(outcomes@.take(i + 1));
            assert(timed(outcomes@.take(i + 1)) * u64::MAX <= usize::MAX * u64::MAX)
                by (nonlinear_arith)
                requires
                    timed(outcomes@.take(i + 1)) <= usize::MAX,
            ;
            assert(usize::MAX * u64::MAX <= u128::MAX) by (nonlinear_arith)
                requires
                    usize::MAX <= u64::MAX,
            ;
        }
        if p.reachable {
            reached_so_far = reached_so_far + 1;
            if p.latency_us > 0 {
                timed_so_far = timed_so_far + 1;
                total = total + p.latency_us as u128;
            }
        }
        i += 1;
    }
    proof {
        assert(outcomes@.take(i as int) =~= outcomes@);
        lemma_tally_bounds(outcomes@);
    }
    let latency_us: u64 = if timed_so_far == 0 {
        0
    } else {
        (total / timed_so_far as u128) as u64
    };
    ProbeStats { sent: outcomes.len(), reached: reached_so_far, latency_us }
}

/// Sums up a connectivity check over one interface: whether the interface
/// works, the mean latency, and which target was reached.
pub fn summarize_connectivity(probes: &Vec<TargetProbe>) -> (r: ConnectivityReport)
    ensures
        r.working == path_works(outcomes_of(probes@)),
        r.latency_us == mean_latency(outcomes_of(probes@)),
        r.results@.len() == probes@.len(),
        forall|i: int|
            0 <= i < probes@.len() ==> (#[trigger] r.results@[i]).target@ == probes@[i].target@
                && r.results@[i].reachable == probes@[i].outcome.reachable,
{
    let mut outcomes: Vec<ProbeOutcome> = Vec::new();
    let mut results: Vec<TargetResult> = Vec::new();
    let mut i: usize = 0;
    while i < probes.len()
        invariant
            i <= probes.len(),
            outcomes@.len() == i,
            results@.len() == i,
            forall|j: int| 0 <= j < i ==> outcomes@[j] == probes@[j].outcome,
            forall|j: int|
                0 <= j < i ==> (#[trigger] results@[j]).target@ == probes@[j].target@
                    && results@[j].reachable == probes@[j].outcome.reachable,
        decreases probes.len() - i,
    {
        outcomes.push(probes[i].outcome);
        results.push(
            TargetResult {
                target: probes[i].target.clone(),
                reachable: probes[i].outcome.reachable,
            },
        );
        i += 1;
    }
    assert(outcomes@ =~= outcomes_of(probes@));
    let stats = probe_stats(outcomes.as_slice());
    proof {
        lemma_tally_bounds(outcomes@);
    }
    let working = stats.reached > 0 && stats.reached >= stats.sent - stats.reached;
    ConnectivityReport { working, latency_us: stats.latency_us, results }
}

/// Whether `target` was reached, by the last entry that `results` has for it;
/// nothing where it has none. The list stands for a mapping from target to
/// outcome, in which a later probe of a target replaces an earlier one.
pub open spec fn reachability(results: Seq<TargetResult>, target: Seq<char>) -> Option<bool>
    decreases results.len(),
{
    if results.len() == 0 {
        None
    } else if results.last().target@ == target {
        Some(results.last().reachable)
    } else {
        reachability(results.drop_last(), target)
    }
}

/// Looks up whether `target` was reached.
pub fn target_reached(results: &Vec<TargetResult>, target: &str) -> (r: Option<bool>)
    ensures
        r == reachability(results@, target@),
{
    let wanted = target.to_owned();
    let mut i: usize = results.len();
    assert(results@.take(i as int) =~= results@);
    while i > 0
        invariant
            i <= results.len(),
            wanted@ == target@,
            reachability(results@, target@) == reachability(results@.take(i as int), target@),
        decreases i,
    {
        proof {
            assert(results@.take(i as int).last() == results@[i - 1]);
            assert(results@.take(i as int).drop_last() =~= results@.take(i - 1));
        }
        i -= 1;
        if results[i].target == wanted {
            return Some(results[i].reachable);
        }
    }
    None
}

impl Clone for TargetResult {
    fn clone(&self) -> (r: Self)
        ensures
            r == *self,
    {
        TargetResult { target: self.target.clone(), reachable: self.reachable }
    }
}

impl Default for InterfaceMetrics {
    /// Nothing is known yet.
    fn default() -> (r: Self)
        ensures
            r.status == HealthStatus::Unknown,
            r.connectivity_latency_us == 0,
            r.speed_latency_us == 0,
            r.test_results@.len() == 0,
    {
        InterfaceMetrics {
            status: HealthStatus::Unknown,
            connectivity_latency_us: 0,
            speed_latency_us: 0,
            test_results: Vec::new(),
        }
    }
}

} // verus!
