//! The bus client's decisions: which endpoints to use, which endpoint carries a
//! channel, the channel and key names, envelope construction, and loopback
//! suppression on the way in. Connections, PING probes, publishes and
//! subscriptions are made by the host.

use vstd::prelude::*;
use vstd::string::*;
use crate::messages::{RedisMessage, RedisMessageType};
use crate::platform::{decimal, decimal_string, default_hash_str, hash_str};
use crate::shard::ChannelKind;

verus! {

/// The delay before a dropped subscription stream reconnects.
pub const RECONNECT_DELAY_SECS: u64 = 3;

/// How long a stored user location lives.
pub const LOCATION_TTL_SECS: u64 = 300;

/// The error kinds of the relay system.
#[derive(PartialEq, Eq, Structural, Clone, Copy, Debug)]
pub enum RelayError {
    /// A transport failure on the pub/sub fabric.
    BusIO,
    /// An envelope could not be serialized or deserialized.
    Serialization,
    /// A client frame is not valid JSON of the expected shape.
    Parse,
    /// No shard has room.
    Saturation,
    /// No bus endpoint answered at start.
    Fatal,
}

/// The bus client's configuration: the reachable endpoints and our pod id.
pub struct RedisClusterManager {
    endpoints: Vec<String>,
    pod_id: String,
    is_cluster_mode: bool,
}

/// The endpoints kept from probe results `(url, answered)`: every primary
/// that answered; when none did, the first fallback that answered.
pub open spec fn kept_endpoints(primary: Seq<(String, bool)>, fallback: Seq<(String, bool)>) -> Seq<String> {
    let p = answered(primary);
    if p.len() > 0 {
        p
    } else {
        let f = answered(fallback);
        if f.len() > 0 {
            seq![f[0]]
        } else {
            Seq::empty()
        }
    }
}

/// The urls that answered, in order.
pub open spec fn answered(probes: Seq<(String, bool)>) -> Seq<String>
    decreases probes.len(),
{
    if probes.len() == 0 {
        Seq::empty()
    } else {
        let rest = answered(probes.drop_last());
        if probes.last().1 {
            rest.push(probes.last().0)
        } else {
            rest
        }
    }
}

/// The endpoint that carries `channel` among `n` endpoints.
pub open spec fn endpoint_for(channel: Seq<char>, n: nat) -> nat {
    if n <= 1 {
        0
    } else {
        (default_hash_str(channel) as nat) % n
    }
}

pub open spec fn kind_prefix(kind: ChannelKind) -> Seq<char> {
    match kind {
        ChannelKind::Messages => "relay_messages"@,
        ChannelKind::Events => "relay_events"@,
        ChannelKind::Heartbeat => "relay_heartbeat"@,
    }
}

/// `relay_<kind>_<shard>` for a shard, `relay_<kind>_global` for the fallback.
pub open spec fn channel(kind: ChannelKind, relay: Option<u32>) -> Seq<char> {
    match relay {
        Some(id) => kind_prefix(kind) + "_"@ + decimal(id as nat),
        None => kind_prefix(kind) + "_global"@,
    }
}

/// The envelopes of `ms` that did not come from pod `own`, in order.
pub open spec fn foreign(ms: Seq<RedisMessage>, own: Seq<char>) -> Seq<RedisMessage>
    decreases ms.len(),
{
    if ms.len() == 0 {
        Seq::empty()
    } else {
        let rest = foreign(ms.drop_last(), own);
        if ms.last().from_pod_id@ == own {
            rest
        } else {
            rest.push(ms.last())
        }
    }
}

/// The name of a channel.
pub fn channel_name(kind: ChannelKind, relay: Option<u32>) -> (r: String)
    ensures
        r@ == channel(kind, relay),
{
    let mut s = match kind {
        ChannelKind::Messages => String::from_str("relay_messages"),
        ChannelKind::Events => String::from_str("relay_events"),
        ChannelKind::Heartbeat => String::from_str("relay_heartbeat"),
    };
    match relay {
        Some(id) => {
            s.append("_");
            let d = decimal_string(id as u64);
            s.append(d.as_str());
        },
        None => {
            s.append("_global");
        },
    }
    proof {
        reveal_strlit("relay_messages");
        reveal_strlit("relay_events");
        reveal_strlit("relay_heartbeat");
        reveal_strlit("_");
        reveal_strlit("_global");
    }
    s
}

/// The channels a shard subscribes to: its own messages and events channels
/// and both global ones, so that every shard of every pod hears the fallbacks.
pub fn subscription_channels(relay_id: u32) -> (r: Vec<String>)
    ensures
        r@.len() == 4,
        r@[0]@ == channel(ChannelKind::Messages, Some(relay_id)),
        r@[1]@ == channel(ChannelKind::Messages, None),
        r@[2]@ == channel(ChannelKind::Events, Some(relay_id)),
        r@[3]@ == channel(ChannelKind::Events, None),
{
    let mut out: Vec<String> = Vec::new();
    out.push(channel_name(ChannelKind::Messages, Some(relay_id)));
    out.push(channel_name(ChannelKind::Messages, None));
    out.push(channel_name(ChannelKind::Events, Some(relay_id)));
    out.push(channel_name(ChannelKind::Events, None));
    out
}

/// The key under which the location of `username` is stored.
pub fn user_location_key(username: &str) -> (r: String)
    ensures
        r@ == "user_location:"@ + username@,
{
    let mut s = String::from_str("user_location:");
    s.append(username);
    s
}

impl RedisClusterManager {
    pub closed spec fn endpoints_spec(&self) -> Seq<String> {
        self.endpoints@
    }

    pub closed spec fn pod(&self) -> Seq<char> {
        self.pod_id@
    }

    pub closed spec fn cluster_mode(&self) -> bool {
        self.is_cluster_mode
    }

    /// At least one endpoint; cluster mode exactly when there are several.
    pub open spec fn wf(&self) -> bool {
        self.endpoints_spec().len() > 0 && self.cluster_mode() == (self.endpoints_spec().len() > 1)
    }

    /// Build the client from PING probe results `(url, answered)` of the
    /// primary endpoints and of the fallbacks. Fails with `Fatal` when no
    /// endpoint answered.
    pub fn new(pod_id: String, primary: &Vec<(String, bool)>, fallback: &Vec<(String, bool)>) -> (r: Result<
        Self,
        RelayError,
    >)
        ensures
            kept_endpoints(primary@, fallback@).len() == 0 <==> r is Err,
            r is Err ==> r == Err::<Self, RelayError>(RelayError::Fatal),
            r is Ok ==> r->Ok_0.wf() && r->Ok_0.endpoints_spec() == kept_endpoints(primary@, fallback@)
                && r->Ok_0.pod() == pod_id@,
    {
        let mut endpoints = answered_urls(primary);
        if endpoints.len() == 0 {
            let f = answered_urls(fallback);
            if f.len() > 0 {
                endpoints.push(f[0].clone());
                proof {
                    assert(endpoints@ =~= seq![f@[0]]);
                }
            }
        }
        if endpoints.len() == 0 {
            return Err(RelayError::Fatal);
        }
        let is_cluster_mode = endpoints.len() > 1;
        Ok(RedisClusterManager { endpoints, pod_id, is_cluster_mode })
    }

    pub fn get_pod_id(&self) -> (r: &String)
        ensures
            r@ == self.pod(),
    {
        &self.pod_id
    }

    /// The reachable endpoints, by url.
    pub fn endpoints(&self) -> (r: &Vec<String>)
        ensures
            r@ == self.endpoints_spec(),
    {
        &self.endpoints
    }

    pub fn is_cluster_mode(&self) -> (r: bool)
        ensures
            r == self.cluster_mode(),
    {
        self.is_cluster_mode
    }

    /// The index of the endpoint that carries `channel`: a stable hash of the
    /// name modulo the number of endpoints; always the first outside cluster mode.
    pub fn get_client_for_channel(&self, channel: &str) -> (r: usize)
        requires
            self.wf(),
        ensures
            r == endpoint_for(channel@, self.endpoints_spec().len()),
            r < self.endpoints_spec().len(),
    {
        if !self.is_cluster_mode {
            return 0;
        }
        let h = hash_str(channel);
        (h % (self.endpoints.len() as u64)) as usize
    }

    /// The endpoint that stores the location of `username` (by the name `user:<username>`).
    pub fn user_location_endpoint(&self, username: &str) -> (r: usize)
        requires
            self.wf(),
        ensures
            r == endpoint_for("user:"@ + username@, self.endpoints_spec().len()),
            r < self.endpoints_spec().len(),
    {
        let mut s = String::from_str("user:");
        s.append(username);
        proof {
            reveal_strlit("user:");
        }
        self.get_client_for_channel(s.as_str())
    }

    /// The stored location of a user on shard `relay_id` of this pod: `<pod_id>:<relay_id>`.
    pub fn user_location_value(&self, relay_id: u32) -> (r: String)
        ensures
            r@ == self.pod() + ":"@ + decimal(relay_id as nat),
    {
        let mut s = self.pod_id.clone();
        s.append(":");
        let d = decimal_string(relay_id as u64);
        s.append(d.as_str());
        s
    }

    /// The envelope for a payload published by shard `from_relay_id` of this pod.
    pub fn envelope(&self, from_relay_id: u32, message_type: RedisMessageType, timestamp: u64) -> (r: RedisMessage)
        ensures
            r.from_pod_id@ == self.pod(),
            r.from_relay_id == from_relay_id,
            r.message_type == message_type,
            r.timestamp == timestamp,
    {
        RedisMessage { from_pod_id: self.pod_id.clone(), from_relay_id, message_type, timestamp }
    }

    /// Loopback suppression: an envelope is accepted from the bus only when it
    /// came from another pod.
    pub fn accepts(&self, message: &RedisMessage) -> (r: bool)
        ensures
            r == (message.from_pod_id@ != self.pod()),
    {
        message.from_pod_id != self.pod_id
    }

    /// The envelopes of `incoming` that came from other pods, in order.
    pub fn filter_incoming(&self, incoming: Vec<RedisMessage>) -> (r: Vec<RedisMessage>)
        ensures
            r@ == foreign(incoming@, self.pod()),
            forall|i: int| 0 <= i < r@.len() ==> (#[trigger] r@[i]).from_pod_id@ != self.pod(),
    {
        let mut out: Vec<RedisMessage> = Vec::new();
        let mut i: usize = 0;
        while i < incoming.len()
            invariant
                i <= incoming@.len(),
                out@ == foreign(incoming@.take(i as int), self.pod()),
                forall|k: int| 0 <= k < out@.len() ==> (#[trigger] out@[k]).from_pod_id@ != self.pod(),
            decreases incoming@.len() - i,
        {
            proof {
                assert(incoming@.take(i as int + 1).drop_last() =~= incoming@.take(i as int));
            }
            if self.accepts(&incoming[i]) {
                out.push(incoming[i].clone());
            }
            i = i + 1;
        }
        proof {
            assert(incoming@.take(i as int) =~= incoming@);
        }
        out
    }
}

fn answered_urls(probes: &Vec<(String, bool)>) -> (r: Vec<String>)
    ensures
        r@ == answered(probes@),
{
    let mut out: Vec<String> = Vec::new();
    let mut i: usize = 0;
    while i < probes.len()
        invariant
            i <= probes@.len(),
            out@ == answered(probes@.take(i as int)),
        decreases probes@.len() - i,
    {
        proof {
            assert(probes@.take(i as int + 1).drop_last() =~= probes@.take(i as int));
        }
        if probes[i].1 {
            out.push(probes[i].0.clone());
        }
        i = i + 1;
    }
    proof {
        assert(probes@.take(i as int) =~= probes@);
    }
    out
}

} // verus!
