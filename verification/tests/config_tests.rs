use wg_failover::config::{clone_strings, parse_test_ips, resolve, CliOptions, FileOptions};
use wg_failover::{FailoverConfig, FailoverError};

fn strings(v: &[&str]) -> Vec<String> {
    v.iter().map(|s| s.to_string()).collect()
}

fn no_cli() -> CliOptions {
    CliOptions {
        peer_ip: None,
        primary: None,
        secondary: None,
        interval: None,
        speedtest_interval: None,
        speed_threshold: None,
        min_switch_interval: None,
        test_ips: None,
        route_all_traffic: false,
    }
}

fn names_cli() -> CliOptions {
    let mut cli = no_cli();
    cli.peer_ip = Some("203.0.113.7".to_string());
    cli.primary = Some("eth0".to_string());
    cli.secondary = Some("wlan0".to_string());
    cli
}

fn full_file() -> FileOptions {
    FileOptions {
        peer_ip: Some("198.51.100.9".to_string()),
        primary: Some("enp3s0".to_string()),
        secondary: Some("wlp2s0".to_string()),
        interval: Some(10),
        speedtest_interval: Some(600),
        speed_threshold: Some(35),
        min_switch_interval: Some(45),
        test_ips: Some(strings(&["9.9.9.9", "198.51.100.9"])),
        route_all_traffic: Some(true),
    }
}

fn invalid(why: &str) -> FailoverError {
    FailoverError::InvalidConfiguration(why.to_string())
}

fn valid_config() -> FailoverConfig {
    resolve(&names_cli(), &FileOptions::default()).unwrap()
}

#[test]
fn config_default_has_the_documented_values() {
    let c = FailoverConfig::default();
    assert_eq!(c.peer_ip, "");
    assert_eq!(c.wg_interface, "wg0");
    assert_eq!(c.primary_interface, "");
    assert_eq!(c.secondary_interface, "");
    assert_eq!(c.check_interval, 30);
    assert_eq!(c.ping_count, 2);
    assert_eq!(c.ping_timeout, 2);
    assert!(c.test_ips.is_empty());
    assert_eq!(c.speedtest_interval, 300);
    assert_eq!(c.speedtest_count, 5);
    assert_eq!(c.speedtest_timeout, 5);
    assert_eq!(c.speed_threshold, 20);
    assert_eq!(c.min_switch_interval, 30);
    assert!(!c.route_all_traffic);
}

#[test]
fn file_default_says_nothing() {
    let f = FileOptions::default();
    assert_eq!(f.peer_ip, None);
    assert_eq!(f.primary, None);
    assert_eq!(f.secondary, None);
    assert_eq!(f.interval, None);
    assert_eq!(f.speedtest_interval, None);
    assert_eq!(f.speed_threshold, None);
    assert_eq!(f.min_switch_interval, None);
    assert_eq!(f.test_ips, None);
    assert_eq!(f.route_all_traffic, None);
}

#[test]
fn resolve_with_names_only_takes_the_defaults() {
    let c = resolve(&names_cli(), &FileOptions::default()).unwrap();
    assert_eq!(c.peer_ip, "203.0.113.7");
    assert_eq!(c.wg_interface, "wg0");
    assert_eq!(c.primary_interface, "eth0");
    assert_eq!(c.secondary_interface, "wlan0");
    assert_eq!(c.check_interval, 30);
    assert_eq!(c.speedtest_interval, 300);
    assert_eq!(c.speed_threshold, 20);
    assert_eq!(c.min_switch_interval, 30);
    assert_eq!(c.ping_count, 1);
    assert_eq!(c.ping_timeout, 2);
    assert_eq!(c.speedtest_count, 5);
    assert_eq!(c.speedtest_timeout, 5);
    assert!(!c.route_all_traffic);
    assert_eq!(c.test_ips, strings(&["8.8.8.8", "1.1.1.1", "208.67.222.222", "203.0.113.7"]));
}

#[test]
fn resolve_takes_the_file_where_the_command_line_is_silent() {
    let c = resolve(&no_cli(), &full_file()).unwrap();
    assert_eq!(c.peer_ip, "198.51.100.9");
    assert_eq!(c.primary_interface, "enp3s0");
    assert_eq!(c.secondary_interface, "wlp2s0");
    assert_eq!(c.check_interval, 10);
    assert_eq!(c.speedtest_interval, 600);
    assert_eq!(c.speed_threshold, 35);
    assert_eq!(c.min_switch_interval, 45);
    assert!(c.route_all_traffic);
    assert_eq!(c.test_ips, strings(&["9.9.9.9", "198.51.100.9"]));
    assert_eq!((c.ping_count, c.ping_timeout, c.speedtest_count, c.speedtest_timeout), (1, 2, 5, 5));
}

#[test]
fn resolve_puts_the_command_line_before_the_file() {
    let mut cli = names_cli();
    cli.interval = Some(5);
    cli.speedtest_interval = Some(3600);
    cli.speed_threshold = Some(50);
    cli.min_switch_interval = Some(60);
    cli.test_ips = Some("1.0.0.1, 8.8.4.4".to_string());
    let c = resolve(&cli, &full_file()).unwrap();
    assert_eq!(c.peer_ip, "203.0.113.7");
    assert_eq!(c.primary_interface, "eth0");
    assert_eq!(c.secondary_interface, "wlan0");
    assert_eq!(c.check_interval, 5);
    assert_eq!(c.speedtest_interval, 3600);
    assert_eq!(c.speed_threshold, 50);
    assert_eq!(c.min_switch_interval, 60);
    assert_eq!(c.test_ips, strings(&["1.0.0.1", "8.8.4.4"]));
}

#[test]
fn resolve_mixes_both_sources_field_by_field() {
    let mut cli = no_cli();
    cli.primary = Some("eth0".to_string());
    let mut file = FileOptions::default();
    file.peer_ip = Some("198.51.100.9".to_string());
    file.secondary = Some("wlp2s0".to_string());
    let c = resolve(&cli, &file).unwrap();
    assert_eq!(c.peer_ip, "198.51.100.9");
    assert_eq!(c.primary_interface, "eth0");
    assert_eq!(c.secondary_interface, "wlp2s0");
    assert_eq!(c.test_ips, strings(&["8.8.8.8", "1.1.1.1", "208.67.222.222", "198.51.100.9"]));
}

#[test]
fn resolve_routes_all_traffic_when_either_source_says_so() {
    let mut cli = names_cli();
    let mut file = FileOptions::default();
    assert!(!resolve(&cli, &file).unwrap().route_all_traffic);
    file.route_all_traffic = Some(false);
    assert!(!resolve(&cli, &file).unwrap().route_all_traffic);
    file.route_all_traffic = Some(true);
    assert!(resolve(&cli, &file).unwrap().route_all_traffic);
    cli.route_all_traffic = true;
    file.route_all_traffic = Some(false);
    assert!(resolve(&cli, &file).unwrap().route_all_traffic);
    file.route_all_traffic = None;
    assert!(resolve(&cli, &file).unwrap().route_all_traffic);
}

#[test]
fn resolve_without_peer_fails() {
    let mut cli = names_cli();
    cli.peer_ip = None;
    assert_eq!(
        resolve(&cli, &FileOptions::default()),
        Err(invalid("Peer IP is required (in args or config)"))
    );
    assert_eq!(
        resolve(&no_cli(), &FileOptions::default()),
        Err(invalid("Peer IP is required (in args or config)"))
    );
}

#[test]
fn resolve_without_primary_fails() {
    let mut cli = names_cli();
    cli.primary = None;
    assert_eq!(resolve(&cli, &FileOptions::default()), Err(invalid("Primary interface is required")));
    cli.secondary = None;
    assert_eq!(resolve(&cli, &FileOptions::default()), Err(invalid("Primary interface is required")));
}

#[test]
fn resolve_without_secondary_fails() {
    let mut cli = names_cli();
    cli.secondary = None;
    assert_eq!(resolve(&cli, &FileOptions::default()), Err(invalid("Secondary interface is required")));
}

#[test]
fn validate_accepts_usable_settings() {
    assert_eq!(valid_config().validate(), Ok(()));
    let mut c = valid_config();
    c.speed_threshold = 0;
    assert_eq!(c.validate(), Ok(()));
    c.speed_threshold = 100;
    assert_eq!(c.validate(), Ok(()));
    c.check_interval = 1;
    c.speedtest_interval = 1;
    c.min_switch_interval = 1;
    assert_eq!(c.validate(), Ok(()));
}

#[test]
fn validate_wants_two_different_interfaces() {
    let mut c = valid_config();
    c.secondary_interface = "eth0".to_string();
    assert_eq!(c.validate(), Err(invalid("Primary and secondary interface must differ")));
    assert_eq!(
        FailoverConfig::default().validate(),
        Err(invalid("Primary and secondary interface must differ"))
    );
}

#[test]
fn validate_wants_a_percentage() {
    let mut c = valid_config();
    c.speed_threshold = 101;
    assert_eq!(c.validate(), Err(invalid("Speed threshold must be between 0 and 100")));
    c.speed_threshold = 255;
    assert_eq!(c.validate(), Err(invalid("Speed threshold must be between 0 and 100")));
}

#[test]
fn validate_wants_intervals_above_zero() {
    let mut c = valid_config();
    c.check_interval = 0;
    assert_eq!(c.validate(), Err(invalid("Check interval must be greater than 0")));
    let mut c = valid_config();
    c.speedtest_interval = 0;
    assert_eq!(c.validate(), Err(invalid("Speed test interval must be greater than 0")));
    let mut c = valid_config();
    c.min_switch_interval = 0;
    assert_eq!(c.validate(), Err(invalid("Minimum switch interval must be greater than 0")));
}

#[test]
fn validate_names_the_first_fault() {
    let mut c = valid_config();
    c.secondary_interface = "eth0".to_string();
    c.speed_threshold = 200;
    c.check_interval = 0;
    assert_eq!(c.validate(), Err(invalid("Primary and secondary interface must differ")));
    c.secondary_interface = "wlan0".to_string();
    assert_eq!(c.validate(), Err(invalid("Speed threshold must be between 0 and 100")));
}

#[test]
fn parse_test_ips_cuts_at_commas_and_trims() {
    assert_eq!(parse_test_ips("8.8.8.8,1.1.1.1"), strings(&["8.8.8.8", "1.1.1.1"]));
    assert_eq!(parse_test_ips(" 8.8.8.8 ,\t1.1.1.1\n"), strings(&["8.8.8.8", "1.1.1.1"]));
    assert_eq!(parse_test_ips("9.9.9.9"), strings(&["9.9.9.9"]));
}

#[test]
fn parse_test_ips_keeps_empty_pieces() {
    assert_eq!(parse_test_ips(""), strings(&[""]));
    assert_eq!(parse_test_ips(","), strings(&["", ""]));
    assert_eq!(parse_test_ips("a,,b,"), strings(&["a", "", "b", ""]));
    assert_eq!(parse_test_ips("  "), strings(&[""]));
}

#[test]
fn parse_test_ips_agrees_with_split_and_trim() {
    for s in ["", "a", "a,b", " a , b ,c", ",,", "x,\u{a0}y\u{3000},z", "1.1.1.1, 8.8.8.8 ,"] {
        let expected: Vec<String> = s.split(',').map(|p| p.trim().to_string()).collect();
        assert_eq!(parse_test_ips(s), expected, "{:?}", s);
    }
}

#[test]
fn clone_strings_copies_the_list() {
    let v = strings(&["a", "", "abc"]);
    assert_eq!(clone_strings(&v), v);
    assert_eq!(clone_strings(&Vec::new()), Vec::<String>::new());
}

#[test]
fn config_clone_is_equal() {
    let c = resolve(&names_cli(), &full_file()).unwrap();
    assert_eq!(c.clone(), c);
    assert_eq!(FailoverConfig::default().clone(), FailoverConfig::default());
}
