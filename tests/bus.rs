use websocket::bus::{channel_name, subscription_channels, user_location_key, RedisClusterManager, RelayError};
use websocket::messages::{RedisMessage, RedisMessageType, UserMessage};
use websocket::shard::{ChannelKind, RelayActor, ShardAction};

fn probes(list: &[(&str, bool)]) -> Vec<(String, bool)> {
    list.iter().map(|(u, ok)| (u.to_string(), *ok)).collect()
}

fn client(pod: &str) -> RedisClusterManager {
    match RedisClusterManager::new(pod.to_string(), &probes(&[("redis://a", true)]), &vec![]) {
        Ok(c) => c,
        Err(_) => panic!("expected a client"),
    }
}

#[test]
fn endpoints_from_probes() {
    let c = match RedisClusterManager::new(
        "p".to_string(),
        &probes(&[("redis://a", true), ("redis://b", false), ("redis://c", true)]),
        &probes(&[("redis://f", true)]),
    ) {
        Ok(c) => c,
        Err(_) => panic!("expected a client"),
    };
    assert_eq!(c.endpoints(), &vec!["redis://a".to_string(), "redis://c".to_string()]);
    assert!(c.is_cluster_mode());
    assert_eq!(c.get_pod_id(), "p");
}

#[test]
fn fallback_used_when_no_primary_answers() {
    let c = match RedisClusterManager::new(
        "p".to_string(),
        &probes(&[("redis://a", false)]),
        &probes(&[("redis://f1", false), ("redis://f2", true), ("redis://f3", true)]),
    ) {
        Ok(c) => c,
        Err(_) => panic!("expected a client"),
    };
    assert_eq!(c.endpoints(), &vec!["redis://f2".to_string()]);
    assert!(!c.is_cluster_mode());
    assert_eq!(c.get_client_for_channel("relay_messages_1"), 0);
}

#[test]
fn no_endpoint_is_fatal() {
    let r = RedisClusterManager::new("p".to_string(), &probes(&[("redis://a", false)]), &probes(&[("redis://f", false)]));
    assert!(matches!(r, Err(RelayError::Fatal)));
}

#[test]
fn channel_partitioning_is_stable() {
    let list = probes(&[("redis://a", true), ("redis://b", true), ("redis://c", true)]);
    let a = RedisClusterManager::new("A".to_string(), &list, &vec![]).ok().unwrap();
    let b = RedisClusterManager::new("B".to_string(), &list, &vec![]).ok().unwrap();
    let mut seen = [false; 3];
    for i in 0..50u32 {
        let ch = channel_name(ChannelKind::Messages, Some(i));
        let ia = a.get_client_for_channel(&ch);
        assert!(ia < 3);
        assert_eq!(ia, b.get_client_for_channel(&ch));
        assert_eq!(ia, a.get_client_for_channel(&ch));
        seen[ia] = true;
    }
    assert!(seen.iter().filter(|s| **s).count() >= 2);
    assert!(a.user_location_endpoint("alice") < 3);
}

#[test]
fn channel_and_key_names() {
    assert_eq!(channel_name(ChannelKind::Messages, Some(7)), "relay_messages_7");
    assert_eq!(channel_name(ChannelKind::Events, Some(120)), "relay_events_120");
    assert_eq!(channel_name(ChannelKind::Heartbeat, None), "relay_heartbeat_global");
    assert_eq!(
        subscription_channels(3),
        vec!["relay_messages_3", "relay_messages_global", "relay_events_3", "relay_events_global"]
    );
    assert_eq!(user_location_key("alice"), "user_location:alice");
    assert_eq!(client("pod-9").user_location_value(42), "pod-9:42");
}

#[test]
fn loopback_suppressed() {
    let a = client("A");
    let b = client("B");
    let env = a.envelope(1, RedisMessageType::UserMessage(UserMessage { username: "alice".to_string(), content: "hi".to_string() }), 5);
    assert_eq!(env.from_pod_id, "A");
    assert!(!a.accepts(&env));
    assert!(b.accepts(&env));
    let other = b.envelope(2, RedisMessageType::RelayHeartbeat { relay_id: 2, active_connections: 0 }, 6);
    let kept = a.filter_incoming(vec![env.clone(), other, env]);
    assert_eq!(kept.len(), 1);
    assert_eq!(kept[0].from_pod_id, "B");
}

#[test]
fn cross_pod_fan_out() {
    let bus_a = client("A");
    let bus_b = client("B");
    let mut shard_a = RelayActor::new(1, 0);
    let mut shard_b = RelayActor::new(1, 0);
    shard_a.handle_register("alice".to_string(), 1);
    shard_b.handle_register("bob".to_string(), 2);
    let acts = shard_a.handle_user_message(UserMessage { username: "alice".to_string(), content: "hi".to_string() });
    let published: Vec<RedisMessage> = acts
        .into_iter()
        .filter_map(|a| match a {
            ShardAction::Publish { from_relay_id, message, .. } => Some(bus_a.envelope(from_relay_id, message, 10)),
            _ => None,
        })
        .collect();
    assert_eq!(published.len(), 1);
    assert!(bus_a.filter_incoming(published.clone()).is_empty());
    let arrived = bus_b.filter_incoming(published);
    assert_eq!(arrived.len(), 1);
    let out = shard_b.handle_redis_message(arrived.into_iter().next().unwrap(), 11);
    assert_eq!(out.len(), 1);
    match &out[0] {
        ShardAction::Deliver { session, event } => {
            assert_eq!(*session, 2);
            assert_eq!(websocket::json::client_event_json(event), "{\"username\":\"alice\",\"content\":\"hi\"}");
        }
        _ => panic!("expected a delivery"),
    }
}
