use wg_failover::decision::{Decision, RouteState};
use wg_failover::guard::should_apply;

fn use_interface(name: &str) -> Decision {
    Decision::UseInterface(name.to_string(), Some("192.168.1.1".to_string()))
}

fn route(active: Option<&str>, last_switch_time: u64) -> RouteState {
    RouteState { active_interface: active.map(|s| s.to_string()), last_switch_time }
}

#[test]
fn first_route_is_set_at_once() {
    assert!(should_apply(&use_interface("eth0"), &route(None, 100), 100, 30));
    assert!(should_apply(&use_interface("eth0"), &route(None, 100), 101, 30));
    assert!(should_apply(&use_interface("eth0"), &route(None, 100), 0, u64::MAX));
}

#[test]
fn decision_without_target_is_never_applied() {
    for r in [route(None, 0), route(Some("eth0"), 0)] {
        assert!(!should_apply(&Decision::NoChange, &r, 1000, 30));
        assert!(!should_apply(&Decision::BothFailed, &r, 1000, 30));
        assert!(!should_apply(&Decision::NoChange, &r, 1000, 0));
        assert!(!should_apply(&Decision::BothFailed, &r, 1000, 0));
    }
}

#[test]
fn decision_for_the_active_interface_is_not_applied_again() {
    assert!(!should_apply(&use_interface("eth0"), &route(Some("eth0"), 0), 1000, 30));
    assert!(!should_apply(&use_interface("eth0"), &route(Some("eth0"), 0), 1000, 0));
}

#[test]
fn change_within_the_interval_is_suppressed() {
    let r = route(Some("eth0"), 100);
    assert!(!should_apply(&use_interface("wlan0"), &r, 100, 30));
    assert!(!should_apply(&use_interface("wlan0"), &r, 110, 30));
    assert!(!should_apply(&use_interface("wlan0"), &r, 129, 30));
}

#[test]
fn change_when_the_interval_has_passed_is_applied() {
    let r = route(Some("eth0"), 100);
    assert!(should_apply(&use_interface("wlan0"), &r, 130, 30));
    assert!(should_apply(&use_interface("wlan0"), &r, 131, 30));
    assert!(should_apply(&use_interface("wlan0"), &r, u64::MAX, 30));
}

#[test]
fn second_change_is_suppressed_and_third_after_the_interval_applied() {
    let mut r = route(Some("eth0"), 0);
    let first = use_interface("wlan0");
    assert!(should_apply(&first, &r, 100, 30));
    r = route(Some("wlan0"), 100);
    let second = use_interface("eth0");
    assert!(!should_apply(&second, &r, 115, 30));
    let third = use_interface("eth0");
    assert!(should_apply(&third, &r, 130, 30));
}

#[test]
fn clock_that_went_back_counts_as_no_time_passed() {
    let r = route(Some("eth0"), 100);
    assert!(!should_apply(&use_interface("wlan0"), &r, 50, 30));
    assert!(should_apply(&use_interface("wlan0"), &r, 50, 0));
}

#[test]
fn interval_zero_never_suppresses_a_change() {
    assert!(should_apply(&use_interface("wlan0"), &route(Some("eth0"), 100), 100, 0));
}

#[test]
fn gateway_plays_no_part_in_the_guard() {
    let r = route(Some("eth0"), 0);
    assert!(!should_apply(&Decision::UseInterface("eth0".to_string(), None), &r, 1000, 30));
    assert!(should_apply(&Decision::UseInterface("wlan0".to_string(), None), &r, 1000, 30));
}
