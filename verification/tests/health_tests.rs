use wg_failover::health::{
    probe_stats, summarize_connectivity, target_reached, HealthStatus, InterfaceMetrics,
    ProbeStats, TargetProbe, TargetResult,
};
use wg_failover::network::ProbeOutcome;

fn hit(latency_us: u64) -> ProbeOutcome {
    ProbeOutcome { reachable: true, latency_us }
}

fn miss() -> ProbeOutcome {
    ProbeOutcome { reachable: false, latency_us: 0 }
}

fn probes(outcomes: &[ProbeOutcome]) -> Vec<TargetProbe> {
    outcomes
        .iter()
        .enumerate()
        .map(|(i, o)| TargetProbe { target: format!("10.0.0.{}", i + 1), outcome: *o })
        .collect()
}

#[test]
fn probe_stats_counts_and_takes_the_mean() {
    let stats = probe_stats(&[hit(1000), hit(2000), miss(), hit(4000)]);
    assert_eq!(stats, ProbeStats { sent: 4, reached: 3, latency_us: 2333 });
}

#[test]
fn probe_stats_of_nothing() {
    assert_eq!(probe_stats(&[]), ProbeStats { sent: 0, reached: 0, latency_us: 0 });
}

#[test]
fn probe_stats_leaves_unknown_latencies_out_of_the_mean() {
    let stats = probe_stats(&[hit(3000), hit(0), hit(0)]);
    assert_eq!(stats, ProbeStats { sent: 3, reached: 3, latency_us: 3000 });
}

#[test]
fn probe_stats_without_a_known_latency_has_mean_zero() {
    assert_eq!(probe_stats(&[hit(0), miss()]), ProbeStats { sent: 2, reached: 1, latency_us: 0 });
}

#[test]
fn probe_stats_does_not_count_the_latency_of_a_failed_probe() {
    let odd = ProbeOutcome { reachable: false, latency_us: 9000 };
    assert_eq!(probe_stats(&[odd, hit(1000)]), ProbeStats { sent: 2, reached: 1, latency_us: 1000 });
}

#[test]
fn probe_stats_does_not_overflow_on_the_largest_latencies() {
    let stats = probe_stats(&[hit(u64::MAX), hit(u64::MAX), hit(u64::MAX)]);
    assert_eq!(stats, ProbeStats { sent: 3, reached: 3, latency_us: u64::MAX });
}

#[test]
fn probe_stats_rounds_the_mean_down() {
    assert_eq!(probe_stats(&[hit(1), hit(2)]).latency_us, 1);
}

#[test]
fn path_with_half_of_the_targets_reached_works() {
    let report = summarize_connectivity(&probes(&[hit(1000), miss()]));
    assert!(report.working);
    let report = summarize_connectivity(&probes(&[hit(1000), miss(), hit(3000), miss()]));
    assert!(report.working);
    assert_eq!(report.latency_us, 2000);
}

#[test]
fn path_with_less_than_half_of_the_targets_reached_has_failed() {
    let report = summarize_connectivity(&probes(&[hit(1000), miss(), miss()]));
    assert!(!report.working);
    assert_eq!(report.latency_us, 1000);
}

#[test]
fn path_with_no_target_reached_has_failed() {
    assert!(!summarize_connectivity(&probes(&[miss(), miss()])).working);
    assert!(!summarize_connectivity(&probes(&[miss()])).working);
}

#[test]
fn path_without_targets_has_failed() {
    let report = summarize_connectivity(&Vec::new());
    assert!(!report.working);
    assert_eq!(report.latency_us, 0);
    assert!(report.results.is_empty());
}

#[test]
fn path_with_all_targets_reached_works() {
    let report = summarize_connectivity(&probes(&[hit(1500), hit(2500), hit(0), hit(3500)]));
    assert!(report.working);
    assert_eq!(report.latency_us, 2500);
}

#[test]
fn summary_keeps_the_targets_in_order() {
    let report = summarize_connectivity(&probes(&[hit(1000), miss(), hit(0)]));
    assert_eq!(
        report.results,
        vec![
            TargetResult { target: "10.0.0.1".to_string(), reachable: true },
            TargetResult { target: "10.0.0.2".to_string(), reachable: false },
            TargetResult { target: "10.0.0.3".to_string(), reachable: true },
        ]
    );
}

#[test]
fn metrics_start_unknown() {
    let m = InterfaceMetrics::default();
    assert_eq!(m.status, HealthStatus::Unknown);
    assert_eq!(m.connectivity_latency_us, 0);
    assert_eq!(m.speed_latency_us, 0);
    assert!(m.test_results.is_empty());
}

#[test]
fn target_result_clone_is_equal() {
    let r = TargetResult { target: "1.1.1.1".to_string(), reachable: true };
    assert_eq!(r.clone(), r);
}

#[test]
fn target_reached_looks_the_target_up() {
    let report = summarize_connectivity(&probes(&[hit(1000), miss(), hit(0)]));
    assert_eq!(target_reached(&report.results, "10.0.0.1"), Some(true));
    assert_eq!(target_reached(&report.results, "10.0.0.2"), Some(false));
    assert_eq!(target_reached(&report.results, "10.0.0.3"), Some(true));
    assert_eq!(target_reached(&report.results, "10.0.0.4"), None);
    assert_eq!(target_reached(&Vec::new(), "10.0.0.1"), None);
}

#[test]
fn target_reached_goes_by_the_last_probe_of_a_target() {
    let twice = vec![
        TargetResult { target: "8.8.8.8".to_string(), reachable: true },
        TargetResult { target: "1.1.1.1".to_string(), reachable: true },
        TargetResult { target: "8.8.8.8".to_string(), reachable: false },
    ];
    assert_eq!(target_reached(&twice, "8.8.8.8"), Some(false));
    assert_eq!(target_reached(&twice, "1.1.1.1"), Some(true));
}
