//! A coarse quality score for a path, from the latency and the loss of a
//! burst of probes.
//!
//! The score is a stand-in for throughput, not a measurement of it: it only
//! ranks two healthy paths against each other.

use crate::health::{mean_latency, probe_stats, reached, lemma_tally_bounds};
use crate::network::ProbeOutcome;
use vstd::prelude::*;

verus! {

/// One of the two candidate paths.
#[derive(Clone, Copy, Debug, PartialEq, Eq, Structural)]
pub enum InterfaceRole {
    Primary,
    Secondary,
}

/// What a speed test found of one path.
///
/// An estimate whose quality or latency is 0 gives no figure to compare: the
/// decision engine treats it like no estimate at all.
#[derive(Clone, Copy, Debug, PartialEq, Eq)]
pub struct SpeedEstimate {
    pub role: InterfaceRole,
    /// Quality towards this host; 0 means that there is no usable figure.
    pub download_quality: u32,
    /// Quality away from this host: four fifths of the other, rounded down.
    pub upload_quality: u32,
    /// Mean latency of the burst in microseconds; 0 where it is not known.
    pub latency_us: u64,
}

/// More than four in five probes reached the target.
pub open spec fn mostly_reached(sent: nat, reached: nat) -> bool {
    5 * reached > 4 * sent
}

/// At most half of the probes reached the target.
pub open spec fn mostly_lost(sent: nat, reached: nat) -> bool {
    2 * reached <= sent
}

/// The quality tier of a burst of `sent` probes of which `reached` came
/// through, with a mean latency of `latency_us` microseconds.
///
/// | probes that came through | latency         | tier |
/// |--------------------------|-----------------|------|
/// | at most half             | any             | 5    |
/// | more than four fifths    | under 20 ms     | 100  |
/// | more than four fifths    | under 50 ms     | 50   |
/// | more than half           | under 100 ms    | 25   |
/// | more than half           | more, or none   | 10   |
///
/// A latency of 0 is one that is not known, and ranks with the slowest.
pub open spec fn quality_tier(sent: nat, reached: nat, latency_us: nat) -> nat {
    if mostly_lost(sent, reached) {
        5
    } else if mostly_reached(sent, reached) && 0 < latency_us < 20_000 {
        100
    } else if mostly_reached(sent, reached) && 0 < latency_us < 50_000 {
        50
    } else if 0 < latency_us < 100_000 {
        25
    } else {
        10
    }
}

/// The quality away from this host that goes with a quality towards it.
pub open spec fn upload_share(download: nat) -> nat {
    download * 4 / 5
}

/// What a burst of probes says of the speed of a path: nothing where no
/// probe came through, so that a path that could not be measured is not
/// taken for one that was measured and found bad.
pub open spec fn speed_estimate(role: InterfaceRole, outcomes: Seq<ProbeOutcome>) -> Option<
    SpeedEstimate,
> {
    if reached(outcomes) == 0 {
        None
    } else {
        let tier = quality_tier(outcomes.len(), reached(outcomes), mean_latency(outcomes));
        Some(
            SpeedEstimate {
                role,
                download_quality: tier as u32,
                upload_quality: upload_share(tier) as u32,
                latency_us: mean_latency(outcomes) as u64,
            },
        )
    }
}

/// A tier is one of five numbers.
pub proof fn lemma_tier_range(sent: nat, reached: nat, latency_us: nat)
    ensures
        5 <= quality_tier(sent, reached, latency_us) <= 100,
        4 <= upload_share(quality_tier(sent, reached, latency_us)) <= 80,
{
}

/// Of two bursts with the same loss, the one with the lower known latency
/// has no lower tier.
pub proof fn lemma_tier_falls_with_latency(sent: nat, reached: nat, faster: nat, slower: nat)
    requires
        0 < faster <= slower,
    ensures
        quality_tier(sent, reached, faster) >= quality_tier(sent, reached, slower),
{
}

/// Of two bursts of the same size and latency, the one of which more probes
/// came through has no lower tier.
pub proof fn lemma_tier_rises_with_success(sent: nat, fewer: nat, more: nat, latency_us: nat)
    requires
        fewer <= more,
    ensures
        quality_tier(sent, fewer, latency_us) <= quality_tier(sent, more, latency_us),
{
}

/// The quality tier of a burst.
pub fn tier_of(sent: usize, reached: usize, latency_us: u64) -> (r: u32)
    ensures
        r == quality_tier(sent as nat, reached as nat, latency_us as nat),
{
    let sent_wide: u128 = sent as u128;
    let reached_wide: u128 = reached as u128;
    let high = 5 * reached_wide > 4 * sent_wide;
    if 2 * reached_wide <= sent_wide {
        5
    } else if high && 0 < latency_us && latency_us < 20_000 {
        100
    } else if high && 0 < latency_us && latency_us < 50_000 {
        50
    } else if 0 < latency_us && latency_us < 100_000 {
        25
    } else {
        10
    }
}

/// Scores a path from the burst of probes of a speed test.
pub fn estimate_speed(role: InterfaceRole, outcomes: &[ProbeOutcome]) -> (r: Option<SpeedEstimate>)
    ensures
        r == speed_estimate(role, outcomes@),
{
    let stats = probe_stats(outcomes);
    if stats.reached == 0 {
        return None;
    }
    let tier = tier_of(stats.sent, stats.reached, stats.latency_us);
    proof {
        lemma_tally_bounds(outcomes@);
    }
    Some(
        SpeedEstimate {
            role,
            download_quality: tier,
            upload_quality: tier * 4 / 5,
            latency_us: stats.latency_us,
        },
    )
}

} // verus!
