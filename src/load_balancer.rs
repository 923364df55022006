//! The pod balancer: per-pod load figures, weights derived from them, weighted
//! random selection of a pod, and eviction of pods that stopped reporting.

use vstd::prelude::*;
use crate::platform::{hash_u128, unix_time_nanos};

verus! {

/// What a pod reports about itself. CPU and memory use are in hundredths of a
/// percent (`5000` is 50 %); `last_updated` is in unix seconds.
pub struct PodMetrics {
    pub pod_id: String,
    pub active_connections: usize,
    pub cpu_usage: u64,
    pub memory_usage: u64,
    pub relay_count: usize,
    pub last_updated: u64,
}

impl Clone for PodMetrics {
    fn clone(&self) -> (r: Self)
        ensures
            r == *self,
    {
        PodMetrics {
            pod_id: self.pod_id.clone(),
            active_connections: self.active_connections,
            cpu_usage: self.cpu_usage,
            memory_usage: self.memory_usage,
            relay_count: self.relay_count,
            last_updated: self.last_updated,
        }
    }
}

/// A pod unseen for longer than this many seconds is evicted.
pub const STALE_AFTER_SECS: u64 = 60;

/// The smallest weight, in millionths (0.1).
pub const MIN_WEIGHT: u64 = 100_000;

/// Weights of known pods, and their reports.
pub struct LoadBalancer {
    pods: Vec<PodMetrics>,
    weights: Vec<u64>,
}

/// A pod's weight in millionths:
/// `0.5 (1 - min(active/1000, 1)) + 0.3 (1 - cpu/100) + 0.2 (1 - memory/100)`,
/// raised to at least 0.1.
pub open spec fn pod_weight(m: PodMetrics) -> int {
    let conn = if m.active_connections < 1000 { m.active_connections as int } else { 1000int };
    let raw = 500 * (1000 - conn) + 30 * (10000 - m.cpu_usage) + 20 * (10000 - m.memory_usage);
    if raw < MIN_WEIGHT { MIN_WEIGHT as int } else { raw }
}

/// A pod reported last more than a minute before `now`.
pub open spec fn stale(m: PodMetrics, now: u64) -> bool {
    now > m.last_updated + STALE_AFTER_SECS
}

/// The pods of `ps` that are not stale at `now`, in order.
pub open spec fn live(ps: Seq<PodMetrics>, now: u64) -> Seq<PodMetrics>
    decreases ps.len(),
{
    if ps.len() == 0 {
        Seq::empty()
    } else {
        let rest = live(ps.drop_last(), now);
        if stale(ps.last(), now) {
            rest
        } else {
            rest.push(ps.last())
        }
    }
}

pub open spec fn sum(ws: Seq<u64>) -> int
    decreases ws.len(),
{
    if ws.len() == 0 {
        0
    } else {
        sum(ws.drop_last()) + ws.last()
    }
}

/// The first index at which the running sum of `ws` reaches `r`
/// (`ws.len()` if it never does).
pub open spec fn pick(ws: Seq<u64>, r: int) -> int
    decreases ws.len(),
{
    if ws.len() == 0 {
        0
    } else if ws[0] >= r {
        0
    } else {
        1 + pick(ws.skip(1), r - ws[0])
    }
}

/// The index chosen for a random `draw`: `r = draw mod total weight`, then the
/// first pod whose running weight reaches `r`; the first pod should rounding
/// leave none.
pub open spec fn chosen(ws: Seq<u64>, draw: u64) -> int {
    let i = pick(ws, draw as int % sum(ws));
    if i < ws.len() { i } else { 0 }
}

pub open spec fn unique_pods(ps: Seq<PodMetrics>) -> bool {
    forall|i: int, j: int| 0 <= i < j < ps.len() ==> (#[trigger] ps[i]).pod_id@ != (#[trigger] ps[j]).pod_id@
}

/// The position of pod `id` in `ps` (meaningful when it is there).
pub open spec fn pod_index(ps: Seq<PodMetrics>, id: Seq<char>) -> int {
    choose|i: int| 0 <= i < ps.len() && (#[trigger] ps[i]).pod_id@ == id
}

pub open spec fn has_pod(ps: Seq<PodMetrics>, id: Seq<char>) -> bool {
    exists|i: int| 0 <= i < ps.len() && (#[trigger] ps[i]).pod_id@ == id
}

/// Every weight lies between 0.1 and 1.0.
pub proof fn lemma_weight_bounds(m: PodMetrics)
    ensures
        MIN_WEIGHT <= pod_weight(m) <= 1_000_000,
{
}

proof fn lemma_sum_bound(ws: Seq<u64>)
    ensures
        0 <= sum(ws) <= ws.len() * 0x1_0000_0000_0000_0000,
    decreases ws.len(),
{
    if ws.len() > 0 {
        lemma_sum_bound(ws.drop_last());
    }
}

proof fn lemma_sum_positive(ws: Seq<u64>)
    requires
        forall|i: int| 0 <= i < ws.len() ==> #[trigger] ws[i] >= MIN_WEIGHT,
        ws.len() > 0,
    ensures
        sum(ws) >= MIN_WEIGHT,
    decreases ws.len(),
{
    assert(ws.last() == ws[ws.len() - 1]);
    lemma_sum_bound(ws.drop_last());
    if ws.len() > 1 {
        let init = ws.drop_last();
        assert forall|i: int| 0 <= i < init.len() implies #[trigger] init[i] >= MIN_WEIGHT by {
            assert(init[i] == ws[i]);
        }
        lemma_sum_positive(init);
    }
}

spec fn in_prefix(ps: Seq<PodMetrics>, n: int, m: PodMetrics) -> bool {
    exists|k: int| 0 <= k < n && #[trigger] ps[k] == m
}

proof fn lemma_pick_nonneg(ws: Seq<u64>, r: int)
    ensures
        pick(ws, r) >= 0,
    decreases ws.len(),
{
    if ws.len() > 0 && ws[0] < r {
        lemma_pick_nonneg(ws.skip(1), r - ws[0]);
    }
}

impl LoadBalancer {
    /// The reports of the known pods, in order of first report.
    pub closed spec fn pods_spec(&self) -> Seq<PodMetrics> {
        self.pods@
    }

    /// The weights of the known pods, aligned with `pods_spec`.
    pub closed spec fn weights_spec(&self) -> Seq<u64> {
        self.weights@
    }

    /// One report and one weight per pod id, the weight derived from the report.
    pub open spec fn wf(&self) -> bool {
        &&& unique_pods(self.pods_spec())
        &&& self.weights_spec().len() == self.pods_spec().len()
        &&& forall|i: int| 0 <= i < self.pods_spec().len() ==> #[trigger] self.weights_spec()[i] == pod_weight(self.pods_spec()[i])
    }

    pub fn new() -> (r: Self)
        ensures
            r.wf(),
            r.pods_spec() == Seq::<PodMetrics>::empty(),
    {
        LoadBalancer { pods: Vec::new(), weights: Vec::new() }
    }

    fn find_pod(&self, id: &String) -> (r: Option<usize>)
        requires
            self.wf(),
        ensures
            r.is_none() <==> !has_pod(self.pods_spec(), id@),
            r.is_some() ==> r.unwrap() < self.pods_spec().len() && r.unwrap() == pod_index(self.pods_spec(), id@),
    {
        let mut i: usize = 0;
        while i < self.pods.len()
            invariant
                self.wf(),
                i <= self.pods@.len(),
                forall|k: int| 0 <= k < i ==> (#[trigger] self.pods@[k]).pod_id@ != id@,
            decreases self.pods@.len() - i,
        {
            if self.pods[i].pod_id == *id {
                proof {
                    let ps = self.pods_spec();
                    assert(0 <= i < ps.len() && ps[i as int].pod_id@ == id@);
                    let c = pod_index(ps, id@);
                    if c != i {
                        if c < i {
                            assert(ps[c].pod_id@ != ps[i as int].pod_id@);
                        } else {
                            assert(ps[i as int].pod_id@ != ps[c].pod_id@);
                        }
                    }
                }
                return Some(i);
            }
            i = i + 1;
        }
        None
    }

    /// Store a pod's report and recompute its weight.
    pub fn update_pod_metrics(&mut self, metrics: PodMetrics)
        requires
            old(self).wf(),
        ensures
            final(self).wf(),
            has_pod(old(self).pods_spec(), metrics.pod_id@) ==> final(self).pods_spec() == old(self).pods_spec().update(
                pod_index(old(self).pods_spec(), metrics.pod_id@),
                metrics,
            ),
            !has_pod(old(self).pods_spec(), metrics.pod_id@) ==> final(self).pods_spec() == old(self).pods_spec().push(
                metrics,
            ),
    {
        let w = weight_of(&metrics);
        match self.find_pod(&metrics.pod_id) {
            Some(i) => {
                let ghost before = self.pods@;
                self.pods.set(i, metrics);
                self.weights.set(i, w);
                proof {
                    let after = self.pods@;
                    assert forall|a: int, b: int| 0 <= a < b < after.len() implies (#[trigger] after[a]).pod_id@
                        != (#[trigger] after[b]).pod_id@ by {
                        if a != i && b != i {
                            assert(after[a] == before[a] && after[b] == before[b]);
                        } else if a == i {
                            assert(before[a].pod_id@ != before[b].pod_id@);
                        } else {
                            assert(before[a].pod_id@ != before[b].pod_id@);
                        }
                    }
                }
            },
            None => {
                proof {
                    let ps = self.pods@;
                    assert forall|k: int| 0 <= k < ps.len() implies (#[trigger] ps[k]).pod_id@ != metrics.pod_id@ by {
                        if ps[k].pod_id@ == metrics.pod_id@ {
                            assert(has_pod(ps, metrics.pod_id@));
                        }
                    }
                }
                self.pods.push(metrics);
                self.weights.push(w);
            },
        }
    }

    /// Weighted random choice of a pod, for a given random `draw`: see `chosen`.
    /// `None` exactly when no pod is known.
    pub fn select_best_pod_with_draw(&self, draw: u64) -> (r: Option<String>)
        requires
            self.wf(),
        ensures
            r.is_none() <==> self.pods_spec().len() == 0,
            r.is_some() ==> r.unwrap()@ == self.pods_spec()[chosen(self.weights_spec(), draw)].pod_id@,
    {
        let n = self.weights.len();
        if n == 0 {
            return None;
        }
        let ghost ws = self.weights@;
        let mut total: u128 = 0;
        let mut i: usize = 0;
        while i < n
            invariant
                self.wf(),
                ws == self.weights@,
                n == ws.len(),
                i <= n,
                total == sum(ws.take(i as int)),
                total <= i * 1_000_000,
            decreases n - i,
        {
            proof {
                assert(ws.take(i as int + 1).drop_last() =~= ws.take(i as int));
                lemma_weight_bounds(self.pods@[i as int]);
            }
            total = total + self.weights[i] as u128;
            i = i + 1;
        }
        proof {
            assert(ws.take(n as int) =~= ws);
            assert forall|k: int| 0 <= k < ws.len() implies #[trigger] ws[k] >= MIN_WEIGHT by {
                lemma_weight_bounds(self.pods@[k]);
            }
            lemma_sum_positive(ws);
            lemma_pick_nonneg(ws, draw as int % sum(ws));
        }
        let target: u128 = (draw as u128) % total;
        let mut rem: u128 = target;
        let mut j: usize = 0;
        while j < n
            invariant
                ws == self.weights@,
                n == ws.len(),
                n == self.pods@.len(),
                j <= n,
                pick(ws, target as int) == j + pick(ws.skip(j as int), rem as int),
                total == sum(ws),
                target == (draw as u128) % total,
            decreases n - j,
        {
            proof {
                assert(ws.skip(j as int)[0] == ws[j as int]);
                assert(ws.skip(j as int).skip(1) =~= ws.skip(j as int + 1));
            }
            let w = self.weights[j] as u128;
            if w >= rem {
                proof {
                    assert(ws.skip(j as int).len() > 0);
                    assert(pick(ws.skip(j as int), rem as int) == 0);
                    assert(target as int == draw as int % sum(ws));
                    assert(chosen(ws, draw) == j);
                }
                return Some(self.pods[j].pod_id.clone());
            }
            rem = rem - w;
            j = j + 1;
        }
        Some(self.pods[0].pod_id.clone())
    }

    /// Weighted random choice of a pod, drawing from the wall clock.
    /// `None` exactly when no pod is known; otherwise one of the known pods.
    pub fn select_best_pod(&self) -> (r: Option<String>)
        requires
            self.wf(),
        ensures
            r.is_none() <==> self.pods_spec().len() == 0,
            r.is_some() ==> has_pod(self.pods_spec(), r.unwrap()@),
    {
        let draw = hash_u128(unix_time_nanos());
        let r = self.select_best_pod_with_draw(draw);
        proof {
            if r.is_some() {
                let c = chosen(self.weights_spec(), draw);
                lemma_pick_nonneg(self.weights_spec(), draw as int % sum(self.weights_spec()));
                assert(0 <= c < self.pods_spec().len());
                assert(self.pods_spec()[c].pod_id@ == r.unwrap()@);
            }
        }
        r
    }

    /// Evict every pod that is stale at `now` (unix seconds), keeping the order
    /// of the others.
    pub fn cleanup_inactive_pods(&mut self, now: u64)
        requires
            old(self).wf(),
        ensures
            final(self).wf(),
            final(self).pods_spec() == live(old(self).pods_spec(), now),
            forall|i: int| 0 <= i < final(self).pods_spec().len() ==> !stale(#[trigger] final(self).pods_spec()[i], now),
    {
        let ghost ps = self.pods@;
        let mut kept: Vec<PodMetrics> = Vec::new();
        let mut kept_w: Vec<u64> = Vec::new();
        let mut i: usize = 0;
        while i < self.pods.len()
            invariant
                self.wf(),
                ps == self.pods@,
                i <= ps.len(),
                kept@ == live(ps.take(i as int), now),
                kept_w@.len() == kept@.len(),
                forall|a: int| 0 <= a < kept@.len() ==> #[trigger] kept_w@[a] == pod_weight(kept@[a]),
                forall|a: int| 0 <= a < kept@.len() ==> !stale(#[trigger] kept@[a], now),
                forall|a: int| 0 <= a < kept@.len() ==> in_prefix(ps, i as int, #[trigger] kept@[a]),
                unique_pods(kept@),
            decreases ps.len() - i,
        {
            proof {
                assert(ps.take(i as int + 1).drop_last() =~= ps.take(i as int));
            }
            let m = &self.pods[i];
            if !(now > m.last_updated && now - m.last_updated > STALE_AFTER_SECS) {
                proof {
                    assert forall|a: int| 0 <= a < kept@.len() implies (#[trigger] kept@[a]).pod_id@ != ps[i as int].pod_id@ by {
                        let k = choose|k: int| 0 <= k < i && #[trigger] ps[k] == kept@[a];
                        assert(ps[k].pod_id@ != ps[i as int].pod_id@);
                    }
                }
                kept.push(m.clone());
                kept_w.push(self.weights[i]);
                proof {
                    let kk = kept@;
                    assert forall|a: int| 0 <= a < kk.len() implies in_prefix(ps, i + 1, #[trigger] kk[a]) by {
                        if a == kk.len() - 1 {
                            assert(ps[i as int] == kk[a]);
                        } else {
                            let k = choose|k: int| 0 <= k < i && #[trigger] ps[k] == kk[a];
                            assert(ps[k] == kk[a]);
                        }
                    }
                }
            }
            i = i + 1;
        }
        proof {
            assert(ps.take(i as int) =~= ps);
        }
        self.pods = kept;
        self.weights = kept_w;
    }

    /// The reports of all known pods.
    pub fn get_pod_stats(&self) -> (r: Vec<PodMetrics>)
        ensures
            r@ == self.pods_spec(),
    {
        let mut out: Vec<PodMetrics> = Vec::new();
        let mut i: usize = 0;
        while i < self.pods.len()
            invariant
                i <= self.pods@.len(),
                out@ == self.pods@.take(i as int),
            decreases self.pods@.len() - i,
        {
            out.push(self.pods[i].clone());
            proof {
                assert(self.pods@.take(i as int + 1) =~= self.pods@.take(i as int).push(self.pods@[i as int]));
            }
            i = i + 1;
        }
        proof {
            assert(self.pods@.take(i as int) =~= self.pods@);
        }
        out
    }
}

/// The weight of a report, in millionths.
pub fn weight_of(m: &PodMetrics) -> (r: u64)
    ensures
        r == pod_weight(*m),
        MIN_WEIGHT <= r <= 1_000_000,
{
    let conn: i128 = if m.active_connections < 1000 { m.active_connections as i128 } else { 1000 };
    let raw: i128 = 500 * (1000 - conn) + 30 * (10000 - m.cpu_usage as i128) + 20 * (10000 - m.memory_usage as i128);
    if raw < MIN_WEIGHT as i128 {
        MIN_WEIGHT
    } else {
        raw as u64
    }
}

} // verus!
