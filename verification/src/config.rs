//! The settings of the failover monitor, and how they are put together from
//! the command line, the configuration file and the defaults.

use crate::errors::FailoverError;
use crate::text::{chars_of, find_char, split, split_from, substring, texts, trim, trim_span};
use vstd::prelude::*;
use vstd::slice::slice_subrange;

verus! {

/// Configuration for the failover monitor
#[derive(Debug, PartialEq, Eq)]
pub struct FailoverConfig {
    /// The IP address or hostname of the WireGuard peer
    pub peer_ip: String,
    /// The WireGuard interface name (e.g., wg0)
    pub wg_interface: String,
    /// Primary network interface (e.g., eth0, enp0s31f6)
    pub primary_interface: String,
    /// Secondary network interface (e.g., wlan0, wlp0s20f0u5)
    pub secondary_interface: String,
    /// Seconds between two connectivity checks
    pub check_interval: u64,
    /// Number of ping attempts
    pub ping_count: u8,
    /// Ping timeout in seconds
    pub ping_timeout: u8,
    /// The addresses that a connectivity check probes
    pub test_ips: Vec<String>,
    /// Seconds between two speed tests
    pub speedtest_interval: u64,
    /// Number of ping attempts of a speed test
    pub speedtest_count: u8,
    /// Ping timeout of a speed test, in seconds
    pub speedtest_timeout: u8,
    /// By how many percent the other path has to be better before the
    /// traffic leaves a healthy path
    pub speed_threshold: u8,
    /// Seconds that have to pass after a switch before the next one
    pub min_switch_interval: u64,
    /// Route all traffic through the selected interface, not only the peer's
    pub route_all_traffic: bool,
}

/// What the command line gave.
#[derive(Debug, PartialEq, Eq)]
pub struct CliOptions {
    pub peer_ip: Option<String>,
    pub primary: Option<String>,
    pub secondary: Option<String>,
    pub interval: Option<u64>,
    pub speedtest_interval: Option<u64>,
    pub speed_threshold: Option<u8>,
    pub min_switch_interval: Option<u64>,
    /// The addresses to probe, with commas between them
    pub test_ips: Option<String>,
    pub route_all_traffic: bool,
}

/// What the configuration file gave.
#[derive(Debug, PartialEq, Eq)]
pub struct FileOptions {
    pub peer_ip: Option<String>,
    pub primary: Option<String>,
    pub secondary: Option<String>,
    pub interval: Option<u64>,
    pub speedtest_interval: Option<u64>,
    pub speed_threshold: Option<u8>,
    pub min_switch_interval: Option<u64>,
    pub test_ips: Option<Vec<String>>,
    pub route_all_traffic: Option<bool>,
}

/// The first of two values that is there.
pub open spec fn first_of<T>(a: Option<T>, b: Option<T>) -> Option<T> {
    if a is Some {
        a
    } else {
        b
    }
}

/// The pieces of a list with commas between them, each without the white
/// space at its ends. An empty piece stays in the list.
pub open spec fn comma_list(s: Seq<char>) -> Seq<Seq<char>> {
    Seq::new(split(s, ',').len(), |i: int| trim(split(s, ',')[i]))
}

/// The addresses that are probed where none are configured: three public
/// name servers, and the peer itself.
pub open spec fn default_test_ips(peer: Seq<char>) -> Seq<Seq<char>> {
    seq!["8.8.8.8"@, "1.1.1.1"@, "208.67.222.222"@, peer]
}

/// The value that is used where neither the command line nor the file gives
/// one.
pub open spec fn or_default<T>(given: Option<T>, default: T) -> T {
    match given {
        Some(v) => v,
        None => default,
    }
}

/// The addresses that a connectivity check probes: those of the command
/// line, else those of the file, else three public name servers and the peer.
pub open spec fn resolved_test_ips(cli: CliOptions, file: FileOptions, peer: Seq<char>) -> Seq<
    Seq<char>,
> {
    match cli.test_ips {
        Some(list) => comma_list(list@),
        None => match file.test_ips {
            Some(ips) => texts(ips@),
            None => default_test_ips(peer),
        },
    }
}

/// Which of the settings that have no default is given nowhere: the first
/// of the peer, the primary and the secondary interface, in words.
pub open spec fn missing(cli: CliOptions, file: FileOptions) -> Option<Seq<char>> {
    if first_of(cli.peer_ip, file.peer_ip) is None {
        Some("Peer IP is required (in args or config)"@)
    } else if first_of(cli.primary, file.primary) is None {
        Some("Primary interface is required"@)
    } else if first_of(cli.secondary, file.secondary) is None {
        Some("Secondary interface is required"@)
    } else {
        None
    }
}

impl FailoverConfig {
    /// The two interfaces differ, the threshold is a percentage, and no
    /// interval is zero.
    pub open spec fn valid(self) -> bool {
        &&& self.primary_interface@ != self.secondary_interface@
        &&& self.speed_threshold <= 100
        &&& self.check_interval > 0
        &&& self.speedtest_interval > 0
        &&& self.min_switch_interval > 0
    }

    /// What is wrong with the settings: the first of the conditions of
    /// `valid` that fails, in words.
    pub open spec fn fault(self) -> Option<Seq<char>> {
        if self.primary_interface@ == self.secondary_interface@ {
            Some("Primary and secondary interface must differ"@)
        } else if self.speed_threshold > 100 {
            Some("Speed threshold must be between 0 and 100"@)
        } else if self.check_interval == 0 {
            Some("Check interval must be greater than 0"@)
        } else if self.speedtest_interval == 0 {
            Some("Speed test interval must be greater than 0"@)
        } else if self.min_switch_interval == 0 {
            Some("Minimum switch interval must be greater than 0"@)
        } else {
            None
        }
    }

    /// Checks the settings before the monitor starts.
    pub fn validate(&self) -> (r: Result<(), FailoverError>)
        ensures
            r is Ok <==> self.valid(),
            r is Ok <==> self.fault() is None,
            r matches Err(e) ==> e matches FailoverError::InvalidConfiguration(m) && Some(m@)
                == self.fault(),
    {
        if self.primary_interface == self.secondary_interface {
            Err(invalid("Primary and secondary interface must differ"))
        } else if self.speed_threshold > 100 {
            Err(invalid("Speed threshold must be between 0 and 100"))
        } else if self.check_interval == 0 {
            Err(invalid("Check interval must be greater than 0"))
        } else if self.speedtest_interval == 0 {
            Err(invalid("Speed test interval must be greater than 0"))
        } else if self.min_switch_interval == 0 {
            Err(invalid("Minimum switch interval must be greater than 0"))
        } else {
            Ok(())
        }
    }
}

impl Clone for FailoverConfig {
    fn clone(&self) -> (r: Self)
        ensures
            r.peer_ip == self.peer_ip,
            r.wg_interface == self.wg_interface,
            r.primary_interface == self.primary_interface,
            r.secondary_interface == self.secondary_interface,
            r.check_interval == self.check_interval,
            r.ping_count == self.ping_count,
            r.ping_timeout == self.ping_timeout,
            r.test_ips@ == self.test_ips@,
            r.speedtest_interval == self.speedtest_interval,
            r.speedtest_count == self.speedtest_count,
            r.speedtest_timeout == self.speedtest_timeout,
            r.speed_threshold == self.speed_threshold,
            r.min_switch_interval == self.min_switch_interval,
            r.route_all_traffic == self.route_all_traffic,
            r.valid() == self.valid(),
    {
        FailoverConfig {
            peer_ip: self.peer_ip.clone(),
            wg_interface: self.wg_interface.clone(),
            primary_interface: self.primary_interface.clone(),
            secondary_interface: self.secondary_interface.clone(),
            check_interval: self.check_interval,
            ping_count: self.ping_count,
            ping_timeout: self.ping_timeout,
            test_ips: clone_strings(&self.test_ips),
            speedtest_interval: self.speedtest_interval,
            speedtest_count: self.speedtest_count,
            speedtest_timeout: self.speedtest_timeout,
            speed_threshold: self.speed_threshold,
            min_switch_interval: self.min_switch_interval,
            route_all_traffic: self.route_all_traffic,
        }
    }
}

impl Default for FailoverConfig {
    /// The settings of a monitor of which nothing was said: no peer and no
    /// interfaces yet.
    fn default() -> (r: Self)
        ensures
            r.peer_ip@ == Seq::<char>::empty(),
            r.wg_interface@ == "wg0"@,
            r.primary_interface@ == Seq::<char>::empty(),
            r.secondary_interface@ == Seq::<char>::empty(),
            r.check_interval == 30,
            r.ping_count == 2,
            r.ping_timeout == 2,
            r.test_ips@ == Seq::<String>::empty(),
            r.speedtest_interval == 300,
            r.speedtest_count == 5,
            r.speedtest_timeout == 5,
            r.speed_threshold == 20,
            r.min_switch_interval == 30,
            !r.route_all_traffic,
    {
        FailoverConfig {
            peer_ip: String::new(),
            wg_interface: "wg0".to_owned(),
            primary_interface: String::new(),
            secondary_interface: String::new(),
            check_interval: 30,
            ping_count: 2,
            ping_timeout: 2,
            test_ips: Vec::new(),
            speedtest_interval: 300,
            speedtest_count: 5,
            speedtest_timeout: 5,
            speed_threshold: 20,
            min_switch_interval: 30,
            route_all_traffic: false,
        }
    }
}

/// The error for settings that cannot be used.
fn invalid(why: &str) -> (e: FailoverError)
    ensures
        e matches FailoverError::InvalidConfiguration(m) && m@ == why@,
{
    FailoverError::InvalidConfiguration(why.to_owned())
}

/// A copy of a list of strings.
pub fn clone_strings(v: &Vec<String>) -> (r: Vec<String>)
    ensures
        r@ == v@,
{
    let mut out: Vec<String> = Vec::new();
    let mut i: usize = 0;
    while i < v.len()
        invariant
            i <= v.len(),
            out@ == v@.take(i as int),
        decreases v.len() - i,
    {
        out.push(v[i].clone());
        assert(out@ =~= v@.take(i + 1));
        i += 1;
    }
    assert(v@.take(i as int) =~= v@);
    out
}

/// Reads a list of addresses with commas between them.
pub fn parse_test_ips(list: &str) -> (r: Vec<String>)
    ensures
        texts(r@) == comma_list(list@),
{
    let chars = chars_of(list);
    let s = chars.as_slice();
    let mut out: Vec<String> = Vec::new();
    let mut pos: usize = 0;
    assert(split(s@, ',').skip(0) =~= split_from(s@, ',', 0));
    assert(texts(out@) =~= comma_list(list@).take(0));
    loop
        invariant
            s@ == list@,
            pos <= s.len(),
            out@.len() <= split(s@, ',').len(),
            split(s@, ',').skip(out@.len() as int) == split_from(s@, ',', pos as int),
            texts(out@) == comma_list(list@).take(out@.len() as int),
        decreases s.len() - pos,
    {
        let end = find_char(s, ',', pos);
        let piece = slice_subrange(s, pos, end);
        let bare = trim_span(piece);
        let ghost k = out@.len() as int;
        let ghost before = out@;
        proof {
            assert(split_from(s@, ',', pos as int)[0] == piece@);
            assert(split_from(s@, ',', pos as int).len() >= 1);
            assert(split(s@, ',').skip(k)[0] == piece@);
            assert(split(s@, ',').len() > k);
            assert(split(list@, ',')[k] == piece@);
            assert(bare.of(piece@) =~= list@.subrange(pos + bare.start, pos + bare.end));
        }
        out.push(substring(list, pos + bare.start, pos + bare.end));
        proof {
            assert(texts(out@) =~= texts(before) + seq![trim(piece@)]);
            assert(comma_list(list@).take(k + 1) =~= comma_list(list@).take(k) + seq![
                trim(piece@),
            ]);
        }
        if end == s.len() {
            proof {
                assert(split_from(s@, ',', pos as int).len() == 1);
                assert(split(s@, ',').len() == k + 1);
                assert(comma_list(list@).take(k + 1) =~= comma_list(list@));
            }
            return out;
        }
        proof {
            assert(split(s@, ',').skip(k + 1) =~= split(s@, ',').skip(k).skip(1));
            assert(split_from(s@, ',', pos as int).skip(1) =~= split_from(s@, ',', end + 1));
        }
        pos = end + 1;
    }
}

impl Default for FileOptions {
    /// A file that says nothing.
    fn default() -> (r: Self)
        ensures
            r.peer_ip is None,
            r.primary is None,
            r.secondary is None,
            r.interval is None,
            r.speedtest_interval is None,
            r.speed_threshold is None,
            r.min_switch_interval is None,
            r.test_ips is None,
            r.route_all_traffic is None,
    {
        FileOptions {
            peer_ip: None,
            primary: None,
            secondary: None,
            interval: None,
            speedtest_interval: None,
            speed_threshold: None,
            min_switch_interval: None,
            test_ips: None,
            route_all_traffic: None,
        }
    }
}

/// The first of two numbers that is there.
fn pick<T: Copy>(a: Option<T>, b: Option<T>) -> (r: Option<T>)
    ensures
        r == first_of(a, b),
{
    match a {
        Some(v) => Some(v),
        None => b,
    }
}

/// The value that was given, or the default.
fn value_or<T: Copy>(given: Option<T>, default: T) -> (r: T)
    ensures
        r == or_default(given, default),
{
    match given {
        Some(v) => v,
        None => default,
    }
}

/// A copy of the first of two strings that is there.
fn pick_string(a: &Option<String>, b: &Option<String>) -> (r: Option<String>)
    ensures
        r == first_of(*a, *b),
{
    match a {
        Some(s) => Some(s.clone()),
        None => match b {
            Some(s) => Some(s.clone()),
            None => None,
        },
    }
}

/// Puts the settings together: what the command line gives goes before what
/// the file gives, and that before the defaults. The peer and the two
/// interfaces have no default. A connectivity check sends one probe to each
/// target and waits two seconds for it; a speed test sends five and waits
/// five seconds for each.
pub fn resolve(cli: &CliOptions, file: &FileOptions) -> (r: Result<FailoverConfig, FailoverError>)
    ensures
        r is Ok <==> missing(*cli, *file) is None,
        r matches Err(e) ==> e matches FailoverError::InvalidConfiguration(m) && Some(m@)
            == missing(*cli, *file),
        r matches Ok(c) ==> {
            &&& Some(c.peer_ip) == first_of(cli.peer_ip, file.peer_ip)
            &&& Some(c.primary_interface) == first_of(cli.primary, file.primary)
            &&& Some(c.secondary_interface) == first_of(cli.secondary, file.secondary)
            &&& c.wg_interface@ == "wg0"@
            &&& c.check_interval == or_default(first_of(cli.interval, file.interval), 30)
            &&& c.speedtest_interval == or_default(
                first_of(cli.speedtest_interval, file.speedtest_interval),
                300,
            )
            &&& c.speed_threshold == or_default(
                first_of(cli.speed_threshold, file.speed_threshold),
                20,
            )
            &&& c.min_switch_interval == or_default(
                first_of(cli.min_switch_interval, file.min_switch_interval),
                30,
            )
            &&& texts(c.test_ips@) == resolved_test_ips(*cli, *file, c.peer_ip@)
            &&& c.route_all_traffic == (cli.route_all_traffic || file.route_all_traffic == Some(
                true,
            ))
            &&& c.ping_count == 1
            &&& c.ping_timeout == 2
            &&& c.speedtest_count == 5
            &&& c.speedtest_timeout == 5
        },
{
    let peer_ip = match pick_string(&cli.peer_ip, &file.peer_ip) {
        Some(s) => s,
        None => {
            return Err(invalid("Peer IP is required (in args or config)"));
        },
    };
    let primary_interface = match pick_string(&cli.primary, &file.primary) {
        Some(s) => s,
        None => {
            return Err(invalid("Primary interface is required"));
        },
    };
    let secondary_interface = match pick_string(&cli.secondary, &file.secondary) {
        Some(s) => s,
        None => {
            return Err(invalid("Secondary interface is required"));
        },
    };
    let test_ips = match &cli.test_ips {
        Some(list) => parse_test_ips(list.as_str()),
        None => match &file.test_ips {
            Some(ips) => clone_strings(ips),
            None => {
                let mut ips: Vec<String> = Vec::new();
                ips.push("8.8.8.8".to_owned());
                ips.push("1.1.1.1".to_owned());
                ips.push("208.67.222.222".to_owned());
                ips.push(peer_ip.clone());
                assert(texts(ips@) =~= default_test_ips(peer_ip@));
                ips
            },
        },
    };
    let mut config = FailoverConfig::default();
    config.ping_count = 1;
    config.peer_ip = peer_ip;
    config.primary_interface = primary_interface;
    config.secondary_interface = secondary_interface;
    config.test_ips = test_ips;
    config.check_interval = value_or(pick(cli.interval, file.interval), 30);
    config.speedtest_interval = value_or(
        pick(cli.speedtest_interval, file.speedtest_interval),
        300,
    );
    config.speed_threshold = value_or(pick(cli.speed_threshold, file.speed_threshold), 20);
    config.min_switch_interval = value_or(
        pick(cli.min_switch_interval, file.min_switch_interval),
        30,
    );
    config.route_all_traffic = cli.route_all_traffic || value_or(file.route_all_traffic, false);
    Ok(config)
}

} // verus!
