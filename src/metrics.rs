//! The metrics pump's arithmetic: a pod's report from its shards' figures and
//! the host's readings.

use vstd::prelude::*;
use crate::balancer::RelayMetrics;
use crate::load_balancer::PodMetrics;

verus! {

/// The connections of all shards together.
pub open spec fn sum_active(ms: Seq<RelayMetrics>) -> int
    decreases ms.len(),
{
    if ms.len() == 0 {
        0
    } else {
        sum_active(ms.drop_last()) + ms.last().active_connections
    }
}

/// Memory use in hundredths of a percent of `total` (none of nothing).
pub open spec fn memory_share(used: u64, total: u64) -> int {
    if total == 0 {
        0
    } else {
        (if used < total { used as int } else { total as int }) * 10000 / (total as int)
    }
}

proof fn lemma_sum_active_nonneg(ms: Seq<RelayMetrics>)
    ensures
        sum_active(ms) >= 0,
    decreases ms.len(),
{
    if ms.len() > 0 {
        lemma_sum_active_nonneg(ms.drop_last());
    }
}

/// How often the pump runs.
pub const PUMP_PERIOD_SECS: u64 = 10;

/// Messages per second between two readings of a message counter taken
/// `interval_secs` apart, rounded down; zero for a counter that went back or
/// an empty interval.
pub fn message_rate(previous: u64, current: u64, interval_secs: u64) -> (r: u64)
    ensures
        r == if current >= previous && interval_secs > 0 { (current - previous) / (interval_secs as int) } else { 0 },
{
    if current >= previous && interval_secs > 0 {
        (current - previous) / interval_secs
    } else {
        0
    }
}

/// The connections of all shards, saturating at `usize::MAX`.
pub fn total_connections(stats: &Vec<RelayMetrics>) -> (r: usize)
    ensures
        r == if sum_active(stats@) <= usize::MAX { sum_active(stats@) } else { usize::MAX as int },
{
    let mut total: usize = 0;
    let mut saturated = false;
    let mut i: usize = 0;
    while i < stats.len()
        invariant
            i <= stats@.len(),
            !saturated ==> total == sum_active(stats@.take(i as int)),
            saturated ==> total == usize::MAX && sum_active(stats@.take(i as int)) > usize::MAX,
        decreases stats@.len() - i,
    {
        proof {
            assert(stats@.take(i as int + 1).drop_last() =~= stats@.take(i as int));
            lemma_sum_active_nonneg(stats@.take(i as int));
        }
        let a = stats[i].active_connections;
        if !saturated {
            if total > usize::MAX - a {
                saturated = true;
                total = usize::MAX;
            } else {
                total = total + a;
            }
        }
        i = i + 1;
    }
    proof {
        assert(stats@.take(i as int) =~= stats@);
    }
    total
}

/// Memory use in hundredths of a percent, from used and total bytes.
pub fn memory_usage(used: u64, total: u64) -> (r: u64)
    ensures
        r == memory_share(used, total),
        r <= 10000,
{
    if total == 0 {
        return 0;
    }
    let u: u128 = if used < total { used as u128 } else { total as u128 };
    let scaled: u128 = u * 10000;
    let t = total as u128;
    assert(scaled / t <= 10000) by (nonlinear_arith)
        requires
            scaled == u * 10000,
            u <= t,
            t >= 1,
    ;
    (scaled / t) as u64
}

/// This pod's report at `now` (unix seconds): the shards' connections summed,
/// the host's CPU and memory use (hundredths of a percent), the number of shards.
pub fn pod_report(pod_id: String, stats: &Vec<RelayMetrics>, cpu_usage: u64, memory_usage: u64, now: u64) -> (r: PodMetrics)
    ensures
        r.pod_id == pod_id,
        r.active_connections == (if sum_active(stats@) <= usize::MAX { sum_active(stats@) } else { usize::MAX as int }),
        r.cpu_usage == cpu_usage,
        r.memory_usage == memory_usage,
        r.relay_count == stats@.len(),
        r.last_updated == now,
{
    PodMetrics {
        pod_id,
        active_connections: total_connections(stats),
        cpu_usage,
        memory_usage,
        relay_count: stats.len(),
        last_updated: now,
    }
}

} // verus!
