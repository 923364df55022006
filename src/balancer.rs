//! The relay balancer: per-shard load figures, sticky user -> shard assignment
//! under a capacity bound, a scoring policy, and rebalance advice.

use vstd::prelude::*;

verus! {

/// The balancer's view of one shard. Throughput is in whole messages per
/// second, response time in milliseconds, `last_updated` in unix seconds.
#[derive(PartialEq, Eq, Structural, Clone, Copy, Debug)]
pub struct RelayMetrics {
    pub relay_id: u32,
    pub active_connections: usize,
    pub message_throughput: u64,
    pub avg_response_time: u64,
    pub last_updated: u64,
}

/// Assigns users to shards and watches shard load.
pub struct DynamicRelayBalancer {
    metrics: Vec<RelayMetrics>,
    user_relay_mapping: Vec<(String, u32)>,
    max_connections_per_relay: usize,
}

/// A shard can take one more user.
pub open spec fn eligible(m: RelayMetrics, max: usize) -> bool {
    m.active_connections < max
}

/// A shard's score in millionths:
/// `0.5 (1 - active/max) + 0.3 / (1 + throughput/1000) + 0.2 / (1 + response/100)`,
/// each of the three terms rounded down.
pub open spec fn score(m: RelayMetrics, max: usize) -> int {
    500_000 * (max - m.active_connections) / (max as int) + 300_000_000int / (1000
        + m.message_throughput) + 20_000_000int / (100 + m.avg_response_time)
}

/// `ms[i]` is the shard to pick: eligible, with the greatest score, and with the
/// lowest id among those of equal score.
pub open spec fn is_best(ms: Seq<RelayMetrics>, max: usize, i: int) -> bool {
    &&& 0 <= i < ms.len()
    &&& eligible(ms[i], max)
    &&& forall|j: int|
        0 <= j < ms.len() && eligible(#[trigger] ms[j], max) ==> score(ms[j], max) < score(ms[i], max) || (
        score(ms[j], max) == score(ms[i], max) && ms[i].relay_id <= ms[j].relay_id)
}

/// The shard that `select_optimal_relay` picks.
pub open spec fn optimal(ms: Seq<RelayMetrics>, max: usize) -> Option<u32> {
    if exists|i: int| is_best(ms, max, i) {
        Some(ms[choose|i: int| is_best(ms, max, i)].relay_id)
    } else {
        None
    }
}

pub open spec fn unique_ids(ms: Seq<RelayMetrics>) -> bool {
    forall|i: int, j: int| 0 <= i < j < ms.len() ==> (#[trigger] ms[i]).relay_id != (#[trigger] ms[j]).relay_id
}

pub open spec fn unique_users(us: Seq<(String, u32)>) -> bool {
    forall|i: int, j: int| 0 <= i < j < us.len() ==> (#[trigger] us[i]).0@ != (#[trigger] us[j]).0@
}

/// The metrics of shard `id`, if it is known.
pub open spec fn metric_of(ms: Seq<RelayMetrics>, id: u32) -> Option<RelayMetrics> {
    if exists|i: int| 0 <= i < ms.len() && (#[trigger] ms[i]).relay_id == id {
        Some(ms[choose|i: int| 0 <= i < ms.len() && (#[trigger] ms[i]).relay_id == id])
    } else {
        None
    }
}

/// The position of shard `id` in `ms` (meaningful when it is there).
pub open spec fn relay_index(ms: Seq<RelayMetrics>, id: u32) -> int {
    choose|i: int| 0 <= i < ms.len() && (#[trigger] ms[i]).relay_id == id
}

/// The position of `name` in `us` (meaningful when it is there).
pub open spec fn user_index(us: Seq<(String, u32)>, name: Seq<char>) -> int {
    choose|i: int| 0 <= i < us.len() && (#[trigger] us[i]).0@ == name
}

/// Fresh metrics of a shard just added at time `now`.
pub open spec fn zeroed(relay_id: u32, now: u64) -> RelayMetrics {
    RelayMetrics {
        relay_id,
        active_connections: 0,
        message_throughput: 0,
        avg_response_time: 0,
        last_updated: now,
    }
}

/// The shard that `name` is pinned to, if any.
pub open spec fn lookup(us: Seq<(String, u32)>, name: Seq<char>) -> Option<u32> {
    if exists|i: int| 0 <= i < us.len() && (#[trigger] us[i]).0@ == name {
        Some(us[choose|i: int| 0 <= i < us.len() && (#[trigger] us[i]).0@ == name].1)
    } else {
        None
    }
}

/// The pinned shard of `name` is known and has room.
pub open spec fn sticky(ms: Seq<RelayMetrics>, us: Seq<(String, u32)>, max: usize, name: Seq<char>) -> bool {
    match lookup(us, name) {
        Some(id) => match metric_of(ms, id) {
            Some(m) => eligible(m, max),
            None => false,
        },
        None => false,
    }
}

/// One call of `get_best_relay_for_user` for `name`, from mapping `us` to
/// mapping `us2`, returning `r`: the pinned shard while it has room; otherwise
/// the optimal shard, to which `name` is then pinned; other users untouched.
pub open spec fn assignment(
    ms: Seq<RelayMetrics>,
    us: Seq<(String, u32)>,
    max: usize,
    name: Seq<char>,
    us2: Seq<(String, u32)>,
    r: Option<u32>,
) -> bool {
    &&& sticky(ms, us, max, name) ==> r == lookup(us, name) && us2 == us
    &&& !sticky(ms, us, max, name) ==> r == optimal(ms, max)
    &&& r.is_none() ==> us2 == us
    &&& r.is_some() ==> lookup(us2, name) == r
    &&& forall|n: Seq<char>| n != name ==> #[trigger] lookup(us2, n) == lookup(us, n)
}

/// Index of the first shard with the most connections among the first `n`.
pub open spec fn first_max(ms: Seq<RelayMetrics>, n: int) -> int
    decreases n,
{
    if n <= 1 {
        0
    } else {
        let j = first_max(ms, n - 1);
        if ms[n - 1].active_connections > ms[j].active_connections {
            n - 1
        } else {
            j
        }
    }
}

/// Index of the first shard with the fewest connections among the first `n`.
pub open spec fn first_min(ms: Seq<RelayMetrics>, n: int) -> int
    decreases n,
{
    if n <= 1 {
        0
    } else {
        let j = first_min(ms, n - 1);
        if ms[n - 1].active_connections < ms[j].active_connections {
            n - 1
        } else {
            j
        }
    }
}

/// The users pinned to shard `id`, in mapping order.
pub open spec fn users_on(us: Seq<(String, u32)>, id: u32) -> Seq<String>
    decreases us.len(),
{
    if us.len() == 0 {
        Seq::empty()
    } else {
        let rest = users_on(us.drop_last(), id);
        if us.last().1 == id {
            rest.push(us.last().0)
        } else {
            rest
        }
    }
}

/// At most the first `k` items of `s`.
pub open spec fn at_most<T>(s: Seq<T>, k: int) -> Seq<T> {
    if s.len() <= k {
        s
    } else {
        s.take(k)
    }
}

/// Proposals to move each of `users` from shard `from` to shard `to`.
pub open spec fn moves(users: Seq<String>, from: u32, to: u32) -> Seq<(String, u32, u32)> {
    users.map_values(|u: String| (u, from, to))
}

/// The rebalance advice for the given metrics and mapping.
pub open spec fn advice(ms: Seq<RelayMetrics>, us: Seq<(String, u32)>, max: usize) -> Seq<(String, u32, u32)> {
    if ms.len() < 2 {
        Seq::empty()
    } else {
        let hi = ms[first_max(ms, ms.len() as int)];
        let lo = ms[first_min(ms, ms.len() as int)];
        let gap = hi.active_connections - lo.active_connections;
        if gap <= max / 3 {
            Seq::empty()
        } else {
            moves(at_most(users_on(us, hi.relay_id), gap / 2), hi.relay_id, lo.relay_id)
        }
    }
}

proof fn lemma_first_max(ms: Seq<RelayMetrics>, n: int)
    requires
        1 <= n <= ms.len(),
    ensures
        0 <= first_max(ms, n) < n,
        forall|j: int| 0 <= j < n ==> (#[trigger] ms[j]).active_connections <= ms[first_max(ms, n)].active_connections,
    decreases n,
{
    if n > 1 {
        lemma_first_max(ms, n - 1);
    }
}

proof fn lemma_first_min(ms: Seq<RelayMetrics>, n: int)
    requires
        1 <= n <= ms.len(),
    ensures
        0 <= first_min(ms, n) < n,
        forall|j: int| 0 <= j < n ==> (#[trigger] ms[j]).active_connections >= ms[first_min(ms, n)].active_connections,
    decreases n,
{
    if n > 1 {
        lemma_first_min(ms, n - 1);
    }
}

/// Among shards with distinct ids, at most one is the best.
proof fn lemma_best_unique(ms: Seq<RelayMetrics>, max: usize, i: int, j: int)
    requires
        unique_ids(ms),
        is_best(ms, max, i),
        is_best(ms, max, j),
    ensures
        i == j,
{
    if i != j {
        assert(ms[i].relay_id <= ms[j].relay_id);
        assert(ms[j].relay_id <= ms[i].relay_id);
        if i < j {
            assert(ms[i].relay_id != ms[j].relay_id);
        } else {
            assert(ms[j].relay_id != ms[i].relay_id);
        }
    }
}

proof fn lemma_lookup_at(us: Seq<(String, u32)>, k: int)
    requires
        unique_users(us),
        0 <= k < us.len(),
    ensures
        lookup(us, us[k].0@) == Some(us[k].1),
        user_index(us, us[k].0@) == k,
{
    let n = us[k].0@;
    assert(0 <= k < us.len() && us[k].0@ == n);
    let c = user_index(us, n);
    if c != k {
        if c < k {
            assert(us[c].0@ != us[k].0@);
        } else {
            assert(us[k].0@ != us[c].0@);
        }
    }
}

proof fn lemma_div_le(x: int, d: int)
    requires
        x >= 0,
        d >= 1,
    ensures
        0 <= x / d <= x,
{
    assert(0 <= x / d <= x) by (nonlinear_arith)
        requires
            x >= 0,
            d >= 1,
    ;
}

/// The shard that `optimal` names is known and has room.
pub proof fn lemma_optimal_eligible(ms: Seq<RelayMetrics>, max: usize)
    requires
        unique_ids(ms),
        optimal(ms, max).is_some(),
    ensures
        metric_of(ms, optimal(ms, max).unwrap()).is_some(),
        eligible(metric_of(ms, optimal(ms, max).unwrap()).unwrap(), max),
{
    let c = choose|c: int| is_best(ms, max, c);
    let id = ms[c].relay_id;
    assert(0 <= c < ms.len() && ms[c].relay_id == id);
    let d = relay_index(ms, id);
    if d != c {
        if d < c {
            assert(ms[d].relay_id != ms[c].relay_id);
        } else {
            assert(ms[c].relay_id != ms[d].relay_id);
        }
    }
}

/// Asking twice for the same user, with nothing changed in between, gives the
/// same shard and leaves the mapping as the first call left it.
pub proof fn lemma_assignment_idempotent(
    ms: Seq<RelayMetrics>,
    us: Seq<(String, u32)>,
    max: usize,
    name: Seq<char>,
    us1: Seq<(String, u32)>,
    r1: Option<u32>,
    us2: Seq<(String, u32)>,
    r2: Option<u32>,
)
    requires
        unique_ids(ms),
        assignment(ms, us, max, name, us1, r1),
        assignment(ms, us1, max, name, us2, r2),
        r1.is_some(),
    ensures
        r2 == r1,
        us2 == us1,
{
    if !sticky(ms, us, max, name) {
        lemma_optimal_eligible(ms, max);
    }
    assert(sticky(ms, us1, max, name));
}

/// When every shard is full, a user who is not already pinned to a shard with
/// room gets none, and the mapping stays as it was.
pub proof fn lemma_full_shards_refuse(
    ms: Seq<RelayMetrics>,
    us: Seq<(String, u32)>,
    max: usize,
    name: Seq<char>,
    us2: Seq<(String, u32)>,
    r: Option<u32>,
)
    requires
        forall|j: int| 0 <= j < ms.len() ==> !eligible(#[trigger] ms[j], max),
        assignment(ms, us, max, name, us2, r),
    ensures
        r.is_none(),
        us2 == us,
{
    if let Some(id) = lookup(us, name) {
        if exists|i: int| 0 <= i < ms.len() && (#[trigger] ms[i]).relay_id == id {
            let k = choose|i: int| 0 <= i < ms.len() && (#[trigger] ms[i]).relay_id == id;
            assert(!eligible(ms[k], max));
        }
    }
    assert(!sticky(ms, us, max, name));
    assert(!exists|i: int| is_best(ms, max, i));
}

fn relay_score(m: &RelayMetrics, max: usize) -> (r: u128)
    requires
        eligible(*m, max),
    ensures
        r == score(*m, max),
{
    let spare = (max - m.active_connections) as u128;
    let cap_num: u128 = 500_000 * spare;
    let max_d = max as u128;
    let tp_d = 1000 + m.message_throughput as u128;
    let rt_d = 100 + m.avg_response_time as u128;
    proof {
        lemma_div_le(cap_num as int, max_d as int);
        lemma_div_le(300_000_000, tp_d as int);
        lemma_div_le(20_000_000, rt_d as int);
    }
    let cap = cap_num / max_d;
    let tp = 300_000_000u128 / tp_d;
    let rt = 20_000_000u128 / rt_d;
    cap + tp + rt
}

impl DynamicRelayBalancer {
    pub closed spec fn ms(&self) -> Seq<RelayMetrics> {
        self.metrics@
    }

    pub closed spec fn users(&self) -> Seq<(String, u32)> {
        self.user_relay_mapping@
    }

    pub closed spec fn max(&self) -> usize {
        self.max_connections_per_relay
    }

    /// Shard ids are distinct and each user is pinned at most once.
    pub open spec fn wf(&self) -> bool {
        unique_ids(self.ms()) && unique_users(self.users())
    }

    /// A balancer with no shards, admitting `max_connections_per_relay` users per shard.
    pub fn new(max_connections_per_relay: usize) -> (r: Self)
        ensures
            r.wf(),
            r.ms() == Seq::<RelayMetrics>::empty(),
            r.users() == Seq::<(String, u32)>::empty(),
            r.max() == max_connections_per_relay,
    {
        DynamicRelayBalancer {
            metrics: Vec::new(),
            user_relay_mapping: Vec::new(),
            max_connections_per_relay,
        }
    }

    fn find_relay(&self, relay_id: u32) -> (r: Option<usize>)
        requires
            unique_ids(self.ms()),
        ensures
            r.is_none() <==> metric_of(self.ms(), relay_id).is_none(),
            r.is_some() ==> r.unwrap() < self.ms().len() && self.ms()[r.unwrap() as int].relay_id == relay_id
                && metric_of(self.ms(), relay_id) == Some(self.ms()[r.unwrap() as int])
                && r.unwrap() == relay_index(self.ms(), relay_id),
    {
        let mut i: usize = 0;
        while i < self.metrics.len()
            invariant
                unique_ids(self.ms()),
                i <= self.metrics@.len(),
                forall|k: int| 0 <= k < i ==> (#[trigger] self.metrics@[k]).relay_id != relay_id,
            decreases self.metrics@.len() - i,
        {
            if self.metrics[i].relay_id == relay_id {
                proof {
                    let ms = self.ms();
                    assert(0 <= i < ms.len() && ms[i as int].relay_id == relay_id);
                    let c = choose|c: int| 0 <= c < ms.len() && (#[trigger] ms[c]).relay_id == relay_id;
                    if c != i {
                        if c < i {
                            assert(ms[c].relay_id != ms[i as int].relay_id);
                        } else {
                            assert(ms[i as int].relay_id != ms[c].relay_id);
                        }
                    }
                }
                return Some(i);
            }
            i = i + 1;
        }
        None
    }

    fn find_user(&self, name: &String) -> (r: Option<usize>)
        requires
            unique_users(self.users()),
        ensures
            r.is_none() <==> lookup(self.users(), name@).is_none(),
            r.is_some() ==> r.unwrap() < self.users().len() && self.users()[r.unwrap() as int].0@ == name@
                && lookup(self.users(), name@) == Some(self.users()[r.unwrap() as int].1)
                && r.unwrap() == user_index(self.users(), name@),
    {
        let mut i: usize = 0;
        while i < self.user_relay_mapping.len()
            invariant
                unique_users(self.users()),
                i <= self.user_relay_mapping@.len(),
                forall|k: int| 0 <= k < i ==> (#[trigger] self.user_relay_mapping@[k]).0@ != name@,
            decreases self.user_relay_mapping@.len() - i,
        {
            if self.user_relay_mapping[i].0 == *name {
                proof {
                    let us = self.users();
                    assert(0 <= i < us.len() && us[i as int].0@ == name@);
                    let c = choose|c: int| 0 <= c < us.len() && (#[trigger] us[c]).0@ == name@;
                    if c != i {
                        if c < i {
                            assert(us[c].0@ != us[i as int].0@);
                        } else {
                            assert(us[i as int].0@ != us[c].0@);
                        }
                    }
                }
                return Some(i);
            }
            i = i + 1;
        }
        None
    }

    /// Add shard `relay_id` with zeroed metrics stamped `now` (unix seconds); a
    /// shard already present gets its metrics reset.
    pub fn add_relay(&mut self, relay_id: u32, now: u64)
        requires
            old(self).wf(),
        ensures
            final(self).wf(),
            final(self).users() == old(self).users(),
            final(self).max() == old(self).max(),
            metric_of(old(self).ms(), relay_id).is_some() ==> final(self).ms() == old(self).ms().update(
                relay_index(old(self).ms(), relay_id),
                zeroed(relay_id, now),
            ),
            metric_of(old(self).ms(), relay_id).is_none() ==> final(self).ms() == old(self).ms().push(
                zeroed(relay_id, now),
            ),
    {
        let fresh = RelayMetrics {
            relay_id,
            active_connections: 0,
            message_throughput: 0,
            avg_response_time: 0,
            last_updated: now,
        };
        match self.find_relay(relay_id) {
            Some(i) => {
                self.metrics.set(i, fresh);
            },
            None => {
                proof {
                    let ms = self.ms();
                    assert forall|k: int| 0 <= k < ms.len() implies (#[trigger] ms[k]).relay_id != relay_id by {
                        if ms[k].relay_id == relay_id {
                            assert(0 <= k < ms.len() && ms[k].relay_id == relay_id);
                        }
                    }
                }
                self.metrics.push(fresh);
            },
        }
    }

    /// Overwrite the metrics of shard `relay_id`, stamped `now` (unix seconds).
    /// An unknown shard is ignored.
    pub fn update_relay_metrics(
        &mut self,
        relay_id: u32,
        connections: usize,
        throughput: u64,
        response_time: u64,
        now: u64,
    )
        requires
            old(self).wf(),
        ensures
            final(self).wf(),
            final(self).users() == old(self).users(),
            final(self).max() == old(self).max(),
            metric_of(old(self).ms(), relay_id).is_some() ==> final(self).ms() == old(self).ms().update(
                relay_index(old(self).ms(), relay_id),
                RelayMetrics {
                    relay_id,
                    active_connections: connections,
                    message_throughput: throughput,
                    avg_response_time: response_time,
                    last_updated: now,
                },
            ),
            metric_of(old(self).ms(), relay_id).is_none() ==> final(self).ms() == old(self).ms(),
    {
        if let Some(i) = self.find_relay(relay_id) {
            self.metrics.set(
                i,
                RelayMetrics {
                    relay_id,
                    active_connections: connections,
                    message_throughput: throughput,
                    avg_response_time: response_time,
                    last_updated: now,
                },
            );
        }
    }

    /// The eligible shard with the greatest score, the lowest id breaking ties;
    /// `None` when every shard is full.
    pub fn select_optimal_relay(&self) -> (r: Option<u32>)
        requires
            self.wf(),
        ensures
            r == optimal(self.ms(), self.max()),
            r.is_none() <==> forall|j: int| 0 <= j < self.ms().len() ==> !eligible(#[trigger] self.ms()[j], self.max()),
            r.is_some() ==> metric_of(self.ms(), r.unwrap()).is_some() && eligible(
                metric_of(self.ms(), r.unwrap()).unwrap(),
                self.max(),
            ),
    {
        let max = self.max_connections_per_relay;
        let mut best: Option<usize> = None;
        let mut best_score: u128 = 0;
        let mut i: usize = 0;
        while i < self.metrics.len()
            invariant
                self.wf(),
                max == self.max(),
                i <= self.ms().len(),
                best.is_none() ==> forall|j: int| 0 <= j < i ==> !eligible(#[trigger] self.ms()[j], max),
                best.is_some() ==> {
                    let b = best.unwrap() as int;
                    &&& b < i
                    &&& eligible(self.ms()[b], max)
                    &&& best_score == score(self.ms()[b], max)
                    &&& forall|j: int|
                        0 <= j < i && eligible(#[trigger] self.ms()[j], max) ==> score(self.ms()[j], max)
                            < score(self.ms()[b], max) || (score(self.ms()[j], max) == score(self.ms()[b], max)
                            && self.ms()[b].relay_id <= self.ms()[j].relay_id)
                },
            decreases self.ms().len() - i,
        {
            let m = &self.metrics[i];
            if m.active_connections < max {
                let sc = relay_score(m, max);
                let better = match best {
                    None => true,
                    Some(b) => sc > best_score || (sc == best_score && m.relay_id < self.metrics[b].relay_id),
                };
                if better {
                    best = Some(i);
                    best_score = sc;
                }
            }
            i = i + 1;
        }
        match best {
            None => {
                proof {
                    assert(!exists|k: int| is_best(self.ms(), max, k));
                }
                None
            },
            Some(b) => {
                proof {
                    let ms = self.ms();
                    assert(is_best(ms, max, b as int));
                    let c = choose|c: int| is_best(ms, max, c);
                    lemma_best_unique(ms, max, b as int, c);
                    assert(0 <= b < ms.len() && ms[b as int].relay_id == ms[b as int].relay_id);
                    let d = relay_index(ms, ms[b as int].relay_id);
                    if d != b {
                        if d < b {
                            assert(ms[d].relay_id != ms[b as int].relay_id);
                        } else {
                            assert(ms[b as int].relay_id != ms[d].relay_id);
                        }
                    }
                }
                Some(self.metrics[b].relay_id)
            },
        }
    }

    /// The shard for a connecting `username`: its pinned shard while that shard
    /// has room; otherwise the optimal shard, to which the user is then pinned.
    /// `None` when every shard is full.
    pub fn get_best_relay_for_user(&mut self, username: &String) -> (r: Option<u32>)
        requires
            old(self).wf(),
        ensures
            final(self).wf(),
            final(self).ms() == old(self).ms(),
            final(self).max() == old(self).max(),
            assignment(old(self).ms(), old(self).users(), old(self).max(), username@, final(self).users(), r),
    {
        let pinned = self.find_user(username);
        if let Some(k) = pinned {
            let id = self.user_relay_mapping[k].1;
            if let Some(j) = self.find_relay(id) {
                if self.metrics[j].active_connections < self.max_connections_per_relay {
                    return Some(id);
                }
            }
        }
        let best = self.select_optimal_relay();
        match best {
            None => None,
            Some(id) => {
                let ghost before = self.users();
                match pinned {
                    Some(k) => {
                        self.user_relay_mapping.set(k, (username.clone(), id));
                    },
                    None => {
                        self.user_relay_mapping.push((username.clone(), id));
                    },
                }
                proof {
                    let after = self.users();
                    let k = if pinned.is_some() { pinned.unwrap() as int } else { before.len() as int };
                    assert(after.len() == before.len() || after.len() == before.len() + 1);
                    assert(after[k].0@ == username@);
                    assert forall|a: int, b: int| 0 <= a < b < after.len() implies (#[trigger] after[a]).0@
                        != (#[trigger] after[b]).0@ by {
                        if a != k && b != k {
                            assert(after[a] == before[a] && after[b] == before[b]);
                        } else if a == k {
                            assert(after[b] == before[b]);
                            if pinned.is_none() {
                                assert(lookup(before, username@).is_none());
                                assert(!(0 <= b < before.len() && before[b].0@ == username@));
                            }
                        } else {
                            assert(after[a] == before[a]);
                            if pinned.is_none() {
                                assert(!(0 <= a < before.len() && before[a].0@ == username@));
                            }
                        }
                    }
                    lemma_lookup_at(after, k);
                    assert forall|n: Seq<char>| n != username@ implies #[trigger] lookup(after, n) == lookup(before, n) by {
                        if exists|i: int| 0 <= i < before.len() && (#[trigger] before[i]).0@ == n {
                            let i = choose|i: int| 0 <= i < before.len() && (#[trigger] before[i]).0@ == n;
                            lemma_lookup_at(before, i);
                            assert(i != k);
                            assert(after[i] == before[i]);
                            lemma_lookup_at(after, i);
                        } else {
                            assert forall|i: int| 0 <= i < after.len() implies (#[trigger] after[i]).0@ != n by {
                                if i != k {
                                    assert(after[i] == before[i]);
                                }
                            }
                        }
                    }
                }
                Some(id)
            },
        }
    }

    /// Forget which shard `username` is pinned to.
    pub fn remove_user(&mut self, username: &String)
        requires
            old(self).wf(),
        ensures
            final(self).wf(),
            final(self).ms() == old(self).ms(),
            final(self).max() == old(self).max(),
            lookup(final(self).users(), username@).is_none(),
            forall|n: Seq<char>| n != username@ ==> #[trigger] lookup(final(self).users(), n) == lookup(old(self).users(), n),
    {
        if let Some(k) = self.find_user(username) {
            let ghost before = self.users();
            self.user_relay_mapping.remove(k);
            proof {
                let after = self.users();
                let k = k as int;
                assert forall|a: int| 0 <= a < after.len() implies #[trigger] after[a] == before[if a < k { a } else { a + 1 }] by {}
                assert forall|a: int, b: int| 0 <= a < b < after.len() implies (#[trigger] after[a]).0@
                    != (#[trigger] after[b]).0@ by {
                    assert(after[a] == before[if a < k { a } else { a + 1 }]);
                    assert(after[b] == before[if b < k { b } else { b + 1 }]);
                }
                assert forall|i: int| 0 <= i < after.len() implies (#[trigger] after[i]).0@ != username@ by {
                    let i0 = if i < k { i } else { i + 1 };
                    assert(after[i] == before[i0]);
                    assert(i0 != k);
                    if i0 < k {
                        assert(before[i0].0@ != before[k].0@);
                    } else {
                        assert(before[k].0@ != before[i0].0@);
                    }
                }
                assert forall|n: Seq<char>| n != username@ implies #[trigger] lookup(after, n) == lookup(before, n) by {
                    if exists|i: int| 0 <= i < before.len() && (#[trigger] before[i]).0@ == n {
                        let i = choose|i: int| 0 <= i < before.len() && (#[trigger] before[i]).0@ == n;
                        lemma_lookup_at(before, i);
                        assert(i != k);
                        let a = if i < k { i } else { i - 1 };
                        assert(after[a] == before[i]);
                        lemma_lookup_at(after, a);
                    } else {
                        assert forall|i: int| 0 <= i < after.len() implies (#[trigger] after[i]).0@ != n by {
                            assert(after[i] == before[if i < k { i } else { i + 1 }]);
                        }
                    }
                }
            }
        }
    }

    /// Advice to even out load: with at least two shards, let `hi` be the first
    /// shard with the most connections and `lo` the first with the fewest; when
    /// `hi` has more than `max / 3` connections over `lo`, propose moving up to
    /// half the difference of the users pinned to `hi`, in mapping order, to
    /// `lo`. Nothing is moved.
    pub fn rebalance_if_needed(&self) -> (r: Vec<(String, u32, u32)>)
        requires
            self.wf(),
        ensures
            r@ == advice(self.ms(), self.users(), self.max()),
            self.ms().len() >= 2 && self.ms()[first_max(self.ms(), self.ms().len() as int)].active_connections
                - self.ms()[first_min(self.ms(), self.ms().len() as int)].active_connections <= self.max() / 3
                ==> r@.len() == 0,
    {
        let n = self.metrics.len();
        if n < 2 {
            return Vec::new();
        }
        let mut hi: usize = 0;
        let mut lo: usize = 0;
        let mut i: usize = 1;
        while i < n
            invariant
                n == self.ms().len(),
                1 <= i <= n,
                hi == first_max(self.ms(), i as int),
                lo == first_min(self.ms(), i as int),
                hi < i,
                lo < i,
            decreases n - i,
        {
            if self.metrics[i].active_connections > self.metrics[hi].active_connections {
                hi = i;
            }
            if self.metrics[i].active_connections < self.metrics[lo].active_connections {
                lo = i;
            }
            i = i + 1;
        }
        proof {
            lemma_first_max(self.ms(), n as int);
            lemma_first_min(self.ms(), n as int);
        }
        let hi_m = self.metrics[hi];
        let lo_m = self.metrics[lo];
        let gap = hi_m.active_connections - lo_m.active_connections;
        let mut out: Vec<(String, u32, u32)> = Vec::new();
        if gap <= self.max_connections_per_relay / 3 {
            return out;
        }
        let k = gap / 2;
        let ghost us = self.users();
        let mut j: usize = 0;
        while j < self.user_relay_mapping.len()
            invariant
                us == self.users(),
                j <= us.len(),
                out@ == moves(at_most(users_on(us.take(j as int), hi_m.relay_id), k as int), hi_m.relay_id, lo_m.relay_id),
                out@.len() == at_most(users_on(us.take(j as int), hi_m.relay_id), k as int).len(),
            decreases us.len() - j,
        {
            let ghost prev = users_on(us.take(j as int), hi_m.relay_id);
            proof {
                assert(us.take(j as int + 1).drop_last() =~= us.take(j as int));
            }
            if self.user_relay_mapping[j].1 == hi_m.relay_id && out.len() < k {
                let name = self.user_relay_mapping[j].0.clone();
                out.push((name, hi_m.relay_id, lo_m.relay_id));
                proof {
                    let next = users_on(us.take(j as int + 1), hi_m.relay_id);
                    assert(next == prev.push(us[j as int].0));
                    assert(at_most(prev, k as int) == prev);
                    assert(at_most(next, k as int) == next);
                    assert(moves(next, hi_m.relay_id, lo_m.relay_id) =~= moves(prev, hi_m.relay_id, lo_m.relay_id).push(
                        (us[j as int].0, hi_m.relay_id, lo_m.relay_id),
                    ));
                }
            } else {
                proof {
                    let next = users_on(us.take(j as int + 1), hi_m.relay_id);
                    if us[j as int].1 == hi_m.relay_id {
                        assert(next == prev.push(us[j as int].0));
                        assert(prev.len() >= k);
                        assert(at_most(next, k as int) =~= at_most(prev, k as int));
                    } else {
                        assert(next == prev);
                    }
                }
            }
            j = j + 1;
        }
        proof {
            assert(us.take(j as int) =~= us);
        }
        out
    }

    /// The current metrics of every shard, in order of addition.
    pub fn get_relay_stats(&self) -> (r: Vec<RelayMetrics>)
        ensures
            r@ == self.ms(),
    {
        self.metrics.clone()
    }
}

} // verus!
