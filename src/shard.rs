//! A relay shard: the local registry of sessions and its fan-out decisions.
//!
//! Every handler is a step from the shard's state and one event to the next
//! state and a list of actions. The host performs the actions in order:
//! deliveries to sessions' mailboxes, user-location updates and bus publishes.

use vstd::prelude::*;
use crate::messages::{ClientEvent, JoinEvent, RedisMessage, RedisMessageType, UnRegisterConnection, UserMessage};

verus! {

/// How often the host drains the bus subscription.
pub const PUMP_INTERVAL_MS: u64 = 5;

/// At most this many envelopes are taken from the subscription per drain.
pub const PUMP_BATCH: usize = 10;

/// How often a shard publishes its heartbeat.
pub const HEARTBEAT_INTERVAL_SECS: u64 = 15;

/// How often a shard checks the bus's health.
pub const HEALTH_CHECK_INTERVAL_SECS: u64 = 30;

/// Which family of bus channels a publish goes to: `relay_<kind>_<shard>`,
/// with `relay_<kind>_global` as the fallback.
#[derive(PartialEq, Eq, Structural, Clone, Copy, Debug)]
pub enum ChannelKind {
    Messages,
    Events,
    Heartbeat,
}

/// What a shard asks its host to do.
pub enum ShardAction {
    /// Put `event` into the mailbox of session `session`.
    Deliver { session: u64, event: ClientEvent },
    /// Record that `username` lives on shard `relay_id` of this pod.
    SetUserLocation { username: String, relay_id: u32 },
    /// Forget where `username` lives.
    RemoveUserLocation { username: String },
    /// Publish `message` from shard `from_relay_id` on the channel family `kind`.
    Publish { kind: ChannelKind, from_relay_id: u32, message: RedisMessageType },
}

/// Counters a shard keeps about its own traffic. Times are in milliseconds.
pub struct RelayMetrics {
    pub active_connections: usize,
    pub message_count: u64,
    pub last_message_time: u64,
    pub avg_response_time: u64,
}

/// One relay shard: username -> session handle, in order of registration.
pub struct RelayActor {
    relay_id: u32,
    connections: Vec<(String, u64)>,
    last_heartbeat: u64,
    message_count: u64,
    last_message_time: u64,
    avg_response_time: u64,
}

/// Whether some entry of `cs` is registered under `name`.
pub open spec fn has_user(cs: Seq<(String, u64)>, name: Seq<char>) -> bool {
    exists|i: int| 0 <= i < cs.len() && (#[trigger] cs[i]).0@ == name
}

/// No username appears twice.
pub open spec fn unique_names(cs: Seq<(String, u64)>) -> bool {
    forall|i: int, j: int| 0 <= i < j < cs.len() ==> (#[trigger] cs[i]).0@ != (#[trigger] cs[j]).0@
}

/// The position of `name` in `cs` (meaningful when `has_user(cs, name)`).
pub open spec fn index_of(cs: Seq<(String, u64)>, name: Seq<char>) -> int {
    choose|i: int| 0 <= i < cs.len() && (#[trigger] cs[i]).0@ == name
}

/// Delivery of `ev` to every entry of `cs`, in order, except the one named `except`.
pub open spec fn deliveries(cs: Seq<(String, u64)>, except: Option<Seq<char>>, ev: ClientEvent) -> Seq<ShardAction>
    decreases cs.len(),
{
    if cs.len() == 0 {
        Seq::empty()
    } else {
        let rest = deliveries(cs.drop_last(), except, ev);
        if except == Some(cs.last().0@) {
            rest
        } else {
            rest.push(ShardAction::Deliver { session: cs.last().1, event: ev })
        }
    }
}

/// The entries after registering `username` with handle `session`.
pub open spec fn registered(cs: Seq<(String, u64)>, username: String, session: u64) -> Seq<(String, u64)> {
    if has_user(cs, username@) {
        cs
    } else {
        cs.push((username, session))
    }
}

/// What registering `username` on shard `relay_id` asks of the host: nothing
/// for a user already present; otherwise the join for every current member,
/// then the location update and the join's publication.
pub open spec fn register_effects(cs: Seq<(String, u64)>, username: String, relay_id: u32) -> Seq<ShardAction> {
    if has_user(cs, username@) {
        Seq::empty()
    } else {
        deliveries(cs, None, ClientEvent::JoinEvent(JoinEvent { username })).push(
            ShardAction::SetUserLocation { username, relay_id },
        ).push(
            ShardAction::Publish {
                kind: ChannelKind::Events,
                from_relay_id: relay_id,
                message: RedisMessageType::JoinEvent(JoinEvent { username }),
            },
        )
    }
}

/// Registering a user a second time changes nothing and asks for nothing: in
/// particular no second join is sent.
pub proof fn lemma_register_idempotent(cs: Seq<(String, u64)>, u: String, h: u64, u2: String, h2: u64, relay_id: u32)
    requires
        u2@ == u@,
    ensures
        registered(registered(cs, u, h), u2, h2) == registered(cs, u, h),
        register_effects(registered(cs, u, h), u2, relay_id) == Seq::<ShardAction>::empty(),
{
    let once = registered(cs, u, h);
    if !has_user(cs, u@) {
        assert(once[cs.len() as int].0@ == u@);
    }
    assert(has_user(once, u2@));
}

/// The entry is not registered under `name`.
pub open spec fn not_named(name: Seq<char>) -> spec_fn((String, u64)) -> bool {
    |c: (String, u64)| c.0@ != name
}

/// The delivery of `ev` to an entry's session.
pub open spec fn deliver_to(ev: ClientEvent) -> spec_fn((String, u64)) -> ShardAction {
    |c: (String, u64)| ShardAction::Deliver { session: c.1, event: ev }
}

/// A message from `sender` reaches exactly the members other than `sender`,
/// each once, in order of registration.
pub proof fn lemma_fan_out_exact(cs: Seq<(String, u64)>, sender: Seq<char>, ev: ClientEvent)
    ensures
        deliveries(cs, Some(sender), ev) == cs.filter(not_named(sender)).map_values(deliver_to(ev)),
    decreases cs.len(),
{
    let keep = not_named(sender);
    let to = deliver_to(ev);
    reveal(Seq::filter);
    if cs.len() > 0 {
        lemma_fan_out_exact(cs.drop_last(), sender, ev);
        let sub = cs.drop_last().filter(keep);
        assert(cs.filter(keep) == (if keep(cs.last()) { sub.push(cs.last()) } else { sub }));
        if keep(cs.last()) {
            assert(sub.push(cs.last()).map_values(to) =~= sub.map_values(to).push(to(cs.last())));
            assert(to(cs.last()) == ShardAction::Deliver { session: cs.last().1, event: ev });
            assert(Some(sender) != Some(cs.last().0@));
        } else {
            assert(Some(sender) == Some(cs.last().0@));
        }
    } else {
        assert(cs.filter(keep).map_values(to) =~= Seq::<ShardAction>::empty());
    }
}

/// The running average of response times after one more sample.
pub open spec fn ema(avg: int, sample: int) -> int {
    (9 * avg + sample) / 10
}

pub open spec fn bump(n: u64) -> u64 {
    if n < u64::MAX { (n + 1) as u64 } else { n }
}

impl RelayActor {
    /// The registered sessions, in order of registration.
    pub closed spec fn conns(&self) -> Seq<(String, u64)> {
        self.connections@
    }

    /// The shard's id.
    pub closed spec fn id(&self) -> u32 {
        self.relay_id
    }

    pub closed spec fn message_count_spec(&self) -> u64 {
        self.message_count
    }

    pub closed spec fn avg_response_time_spec(&self) -> u64 {
        self.avg_response_time
    }

    pub closed spec fn last_heartbeat_spec(&self) -> u64 {
        self.last_heartbeat
    }

    pub closed spec fn last_message_time_spec(&self) -> u64 {
        self.last_message_time
    }

    /// Each username has exactly one session handle.
    pub open spec fn wf(&self) -> bool {
        unique_names(self.conns())
    }

    /// An empty shard; `now` is the current monotonic time in milliseconds.
    pub fn new(relay_id: u32, now: u64) -> (r: Self)
        ensures
            r.wf(),
            r.id() == relay_id,
            r.conns() == Seq::<(String, u64)>::empty(),
            r.message_count_spec() == 0,
            r.avg_response_time_spec() == 0,
            r.last_heartbeat_spec() == now,
            r.last_message_time_spec() == now,
    {
        RelayActor {
            relay_id,
            connections: Vec::new(),
            last_heartbeat: now,
            message_count: 0,
            last_message_time: now,
            avg_response_time: 0,
        }
    }

    /// The shard's id.
    pub fn relay_id(&self) -> (r: u32)
        ensures
            r == self.id(),
    {
        self.relay_id
    }

    /// Number of registered sessions.
    pub fn active_connections(&self) -> (r: usize)
        ensures
            r == self.conns().len(),
    {
        self.connections.len()
    }

    /// The session registered under `username`, if any.
    pub fn session_of(&self, username: &String) -> (r: Option<u64>)
        requires
            self.wf(),
        ensures
            r.is_none() <==> !has_user(self.conns(), username@),
            r.is_some() ==> r == Some(self.conns()[index_of(self.conns(), username@)].1),
    {
        match self.find(username) {
            Some(i) => Some(self.connections[i].1),
            None => None,
        }
    }

    fn find(&self, name: &String) -> (r: Option<usize>)
        requires
            self.wf(),
        ensures
            r.is_none() <==> !has_user(self.conns(), name@),
            r.is_some() ==> r.unwrap() < self.conns().len() && r.unwrap() == index_of(self.conns(), name@),
    {
        let mut i: usize = 0;
        while i < self.connections.len()
            invariant
                self.wf(),
                i <= self.connections@.len(),
                forall|k: int| 0 <= k < i ==> (#[trigger] self.connections@[k]).0@ != name@,
            decreases self.connections@.len() - i,
        {
            if self.connections[i].0 == *name {
                proof {
                    let j = index_of(self.conns(), name@);
                    assert(self.conns()[i as int].0@ == name@);
                    assert(has_user(self.conns(), name@));
                    assert(j == i) by {
                        if j != i {
                            if j < i {
                                assert(self.conns()[j].0@ != self.conns()[i as int].0@);
                            } else {
                                assert(self.conns()[i as int].0@ != self.conns()[j].0@);
                            }
                        }
                    }
                }
                return Some(i);
            }
            i = i + 1;
        }
        None
    }

    /// Register `username` with session handle `session`.
    ///
    /// A username that is already present leaves the shard unchanged and asks for
    /// nothing. Otherwise every current member is told of the join (the newcomer
    /// is not), the entry is appended, and the host is asked to record the
    /// user's location and to publish the join on the events channels.
    pub fn handle_register(&mut self, username: String, session: u64) -> (r: Vec<ShardAction>)
        requires
            old(self).wf(),
        ensures
            final(self).wf(),
            final(self).id() == old(self).id(),
            final(self).message_count_spec() == old(self).message_count_spec(),
            final(self).avg_response_time_spec() == old(self).avg_response_time_spec(),
            final(self).conns() == registered(old(self).conns(), username, session),
            r@ == register_effects(old(self).conns(), username, old(self).id()),
            has_user(final(self).conns(), username@),
    {
        if self.find(&username).is_some() {
            return Vec::new();
        }
        let ev = ClientEvent::JoinEvent(JoinEvent { username: username.clone() });
        let mut out = self.fan_out(None, &ev);
        out.push(ShardAction::SetUserLocation { username: username.clone(), relay_id: self.relay_id });
        out.push(
            ShardAction::Publish {
                kind: ChannelKind::Events,
                from_relay_id: self.relay_id,
                message: RedisMessageType::JoinEvent(JoinEvent { username: username.clone() }),
            },
        );
        proof {
            let cs = self.connections@;
            assert forall|k: int| 0 <= k < cs.len() implies (#[trigger] cs[k]).0@ != username@ by {
                if cs[k].0@ == username@ {
                    assert(has_user(cs, username@));
                }
            }
        }
        let ghost name = username@;
        self.connections.push((username, session));
        proof {
            let cs = self.connections@;
            assert(cs[cs.len() - 1].0@ == name);
        }
        out
    }

    /// Remove `msg.username`.
    ///
    /// An absent username leaves the shard unchanged and asks for nothing.
    /// Otherwise the entry is removed, every remaining member is told, and the
    /// host is asked to forget the user's location and to publish the leave on
    /// the events channels.
    pub fn handle_unregister(&mut self, msg: UnRegisterConnection) -> (r: Vec<ShardAction>)
        requires
            old(self).wf(),
        ensures
            final(self).wf(),
            final(self).id() == old(self).id(),
            final(self).message_count_spec() == old(self).message_count_spec(),
            final(self).avg_response_time_spec() == old(self).avg_response_time_spec(),
            !has_user(old(self).conns(), msg.username@) ==> final(self).conns() == old(self).conns()
                && r@ == Seq::<ShardAction>::empty(),
            has_user(old(self).conns(), msg.username@) ==> final(self).conns() == old(self).conns().remove(
                index_of(old(self).conns(), msg.username@),
            ) && !has_user(final(self).conns(), msg.username@) && r@ == deliveries(
                final(self).conns(),
                None,
                ClientEvent::UnRegisterConnection(msg),
            ).push(ShardAction::RemoveUserLocation { username: msg.username }).push(
                ShardAction::Publish {
                    kind: ChannelKind::Events,
                    from_relay_id: old(self).id(),
                    message: RedisMessageType::UnRegisterConnection(msg),
                },
            ),
    {
        match self.find(&msg.username) {
            None => Vec::new(),
            Some(i) => {
                let ghost before = self.connections@;
                self.connections.remove(i);
                proof {
                    let after = self.connections@;
                    assert forall|a: int, b: int| 0 <= a < b < after.len() implies (#[trigger] after[a]).0@
                        != (#[trigger] after[b]).0@ by {
                        let a0 = if a < i { a } else { a + 1 };
                        let b0 = if b < i { b } else { b + 1 };
                        assert(after[a] == before[a0]);
                        assert(after[b] == before[b0]);
                    }
                    if has_user(after, msg.username@) {
                        let k = choose|k: int| 0 <= k < after.len() && (#[trigger] after[k]).0@ == msg.username@;
                        let k0 = if k < i { k } else { k + 1 };
                        assert(after[k] == before[k0]);
                        assert(before[i as int].0@ == msg.username@);
                    }
                }
                let ev = ClientEvent::UnRegisterConnection(msg.clone());
                let mut out = self.fan_out(None, &ev);
                out.push(ShardAction::RemoveUserLocation { username: msg.username.clone() });
                out.push(
                    ShardAction::Publish {
                        kind: ChannelKind::Events,
                        from_relay_id: self.relay_id,
                        message: RedisMessageType::UnRegisterConnection(msg),
                    },
                );
                out
            },
        }
    }

    /// A chat message from a local session: delivered to every member but its
    /// sender, then published on the messages channels.
    pub fn handle_user_message(&mut self, msg: UserMessage) -> (r: Vec<ShardAction>)
        requires
            old(self).wf(),
        ensures
            final(self).wf(),
            final(self).id() == old(self).id(),
            final(self).conns() == old(self).conns(),
            final(self).message_count_spec() == bump(old(self).message_count_spec()),
            final(self).avg_response_time_spec() == old(self).avg_response_time_spec(),
            r@ == deliveries(
                old(self).conns(),
                Some(msg.username@),
                ClientEvent::UserMessage(msg),
            ).push(
                ShardAction::Publish {
                    kind: ChannelKind::Messages,
                    from_relay_id: old(self).id(),
                    message: RedisMessageType::UserMessage(msg),
                },
            ),
    {
        let ev = ClientEvent::UserMessage(msg.clone());
        let mut out = self.fan_out(Some(&msg.username), &ev);
        out.push(
            ShardAction::Publish {
                kind: ChannelKind::Messages,
                from_relay_id: self.relay_id,
                message: RedisMessageType::UserMessage(msg),
            },
        );
        self.message_count = self.message_count.saturating_add(1);
        out
    }

    /// An envelope that arrived from the bus at time `now` (milliseconds).
    ///
    /// A user message goes to every member but its sender; a join or a leave
    /// goes to every member; a heartbeat of a shard is only observed.
    pub fn handle_redis_message(&mut self, message: RedisMessage, now: u64) -> (r: Vec<ShardAction>)
        requires
            old(self).wf(),
        ensures
            final(self).wf(),
            final(self).id() == old(self).id(),
            final(self).conns() == old(self).conns(),
            final(self).message_count_spec() == bump(old(self).message_count_spec()),
            final(self).last_message_time_spec() == now,
            final(self).avg_response_time_spec() == old(self).avg_response_time_spec(),
            r@ == bus_deliveries(old(self).conns(), message.message_type),
    {
        self.message_count = self.message_count.saturating_add(1);
        self.last_message_time = now;
        match message.message_type {
            RedisMessageType::UserMessage(m) => {
                let ev = ClientEvent::UserMessage(m.clone());
                self.fan_out(Some(&m.username), &ev)
            },
            RedisMessageType::JoinEvent(j) => self.fan_out(None, &ClientEvent::JoinEvent(j)),
            RedisMessageType::UnRegisterConnection(u) => self.fan_out(
                None,
                &ClientEvent::UnRegisterConnection(u),
            ),
            RedisMessageType::RelayHeartbeat { .. } => Vec::new(),
        }
    }

    /// The periodic heartbeat at time `now`: publish the shard's id and size on
    /// the heartbeat channels.
    pub fn heartbeat(&mut self, now: u64) -> (r: ShardAction)
        requires
            old(self).wf(),
        ensures
            final(self).wf(),
            final(self).id() == old(self).id(),
            final(self).conns() == old(self).conns(),
            final(self).last_heartbeat_spec() == now,
            final(self).message_count_spec() == old(self).message_count_spec(),
            final(self).avg_response_time_spec() == old(self).avg_response_time_spec(),
            r == (ShardAction::Publish {
                kind: ChannelKind::Heartbeat,
                from_relay_id: old(self).id(),
                message: RedisMessageType::RelayHeartbeat {
                    relay_id: old(self).id(),
                    active_connections: old(self).conns().len() as usize,
                },
            }),
    {
        self.last_heartbeat = now;
        ShardAction::Publish {
            kind: ChannelKind::Heartbeat,
            from_relay_id: self.relay_id,
            message: RedisMessageType::RelayHeartbeat {
                relay_id: self.relay_id,
                active_connections: self.connections.len(),
            },
        }
    }

    /// Fold one processing time, in milliseconds, into the running average:
    /// `new = old * 0.9 + sample * 0.1`, rounded down.
    pub fn update_response_time(&mut self, elapsed_ms: u64)
        ensures
            final(self).avg_response_time_spec() == ema(old(self).avg_response_time_spec() as int, elapsed_ms as int),
            final(self).id() == old(self).id(),
            final(self).conns() == old(self).conns(),
            final(self).message_count_spec() == old(self).message_count_spec(),
    {
        let total: u128 = 9 * (self.avg_response_time as u128) + (elapsed_ms as u128);
        assert(total / 10 <= u64::MAX);
        self.avg_response_time = (total / 10) as u64;
    }

    /// A snapshot of the shard's counters.
    pub fn get_metrics(&self) -> (r: RelayMetrics)
        ensures
            r.active_connections == self.conns().len(),
            r.message_count == self.message_count_spec(),
            r.last_message_time == self.last_message_time_spec(),
            r.avg_response_time == self.avg_response_time_spec(),
    {
        RelayMetrics {
            active_connections: self.connections.len(),
            message_count: self.message_count,
            last_message_time: self.last_message_time,
            avg_response_time: self.avg_response_time,
        }
    }

    fn fan_out(&self, except: Option<&String>, ev: &ClientEvent) -> (r: Vec<ShardAction>)
        ensures
            r@ == deliveries(self.conns(), opt_view(except), *ev),
    {
        let mut out: Vec<ShardAction> = Vec::new();
        let mut i: usize = 0;
        while i < self.connections.len()
            invariant
                i <= self.connections@.len(),
                out@ == deliveries(self.conns().take(i as int), opt_view(except), *ev),
            decreases self.connections@.len() - i,
        {
            proof {
                assert(self.conns().take(i as int + 1).drop_last() =~= self.conns().take(i as int));
            }
            let skip = match except {
                Some(name) => self.connections[i].0 == *name,
                None => false,
            };
            if !skip {
                out.push(ShardAction::Deliver { session: self.connections[i].1, event: ev.clone() });
            }
            i = i + 1;
        }
        proof {
            assert(self.conns().take(i as int) =~= self.conns());
        }
        out
    }
}

/// What an envelope from the bus puts into the members' mailboxes.
pub open spec fn bus_deliveries(cs: Seq<(String, u64)>, m: RedisMessageType) -> Seq<ShardAction> {
    match m {
        RedisMessageType::UserMessage(u) => deliveries(cs, Some(u.username@), ClientEvent::UserMessage(u)),
        RedisMessageType::JoinEvent(j) => deliveries(cs, None, ClientEvent::JoinEvent(j)),
        RedisMessageType::UnRegisterConnection(u) => deliveries(cs, None, ClientEvent::UnRegisterConnection(u)),
        RedisMessageType::RelayHeartbeat { .. } => Seq::empty(),
    }
}

pub open spec fn opt_view(o: Option<&String>) -> Option<Seq<char>> {
    match o {
        Some(s) => Some(s@),
        None => None,
    }
}

} // verus!
