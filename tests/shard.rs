use websocket::json::client_event_json;
use websocket::messages::{JoinEvent, RedisMessage, RedisMessageType, UnRegisterConnection, UserMessage};
use websocket::shard::{ChannelKind, RelayActor, ShardAction};

fn text(a: &ShardAction) -> Option<(u64, String)> {
    match a {
        ShardAction::Deliver { session, event } => Some((*session, client_event_json(event))),
        _ => None,
    }
}

fn msg(u: &str, c: &str) -> UserMessage {
    UserMessage { username: u.to_string(), content: c.to_string() }
}

fn unreg(u: &str) -> UnRegisterConnection {
    UnRegisterConnection { username: u.to_string() }
}

#[test]
fn two_user_local_chat() {
    let mut shard = RelayActor::new(1, 0);
    let a = shard.handle_register("alice".to_string(), 1);
    assert_eq!(a.len(), 2);
    assert!(a.iter().all(|x| text(x).is_none()));
    assert!(matches!(&a[0], ShardAction::SetUserLocation { username, relay_id: 1 } if username == "alice"));
    assert!(matches!(&a[1], ShardAction::Publish { kind: ChannelKind::Events, from_relay_id: 1, message: RedisMessageType::JoinEvent(j) } if j.username == "alice"));

    let b = shard.handle_register("bob".to_string(), 2);
    assert_eq!(b.len(), 3);
    assert_eq!(text(&b[0]), Some((1, "{\"username\":\"bob\"}".to_string())));

    let m = shard.handle_user_message(msg("alice", "hi"));
    assert_eq!(m.len(), 2);
    assert_eq!(text(&m[0]), Some((2, "{\"username\":\"alice\",\"content\":\"hi\"}".to_string())));
    assert!(matches!(&m[1], ShardAction::Publish { kind: ChannelKind::Messages, from_relay_id: 1, message: RedisMessageType::UserMessage(u) } if u.content == "hi"));

    let l = shard.handle_unregister(unreg("alice"));
    assert_eq!(l.len(), 3);
    assert_eq!(text(&l[0]), Some((2, "{\"username\":\"alice\"}".to_string())));
    assert!(matches!(&l[1], ShardAction::RemoveUserLocation { username } if username == "alice"));
    assert!(matches!(&l[2], ShardAction::Publish { kind: ChannelKind::Events, message: RedisMessageType::UnRegisterConnection(_), .. }));
    assert_eq!(shard.active_connections(), 1);
}

#[test]
fn register_twice_is_a_no_op() {
    let mut shard = RelayActor::new(3, 0);
    shard.handle_register("carol".to_string(), 5);
    shard.handle_register("dave".to_string(), 6);
    let again = shard.handle_register("carol".to_string(), 9);
    assert!(again.is_empty());
    assert_eq!(shard.active_connections(), 2);
    assert_eq!(shard.session_of(&"carol".to_string()), Some(5));
}

#[test]
fn unregister_absent_is_a_no_op() {
    let mut shard = RelayActor::new(3, 0);
    shard.handle_register("carol".to_string(), 5);
    let r = shard.handle_unregister(unreg("erin"));
    assert!(r.is_empty());
    assert_eq!(shard.active_connections(), 1);
    assert_eq!(shard.session_of(&"erin".to_string()), None);
}

#[test]
fn bus_user_message_skips_sender_in_order() {
    let mut shard = RelayActor::new(2, 0);
    shard.handle_register("a".to_string(), 10);
    shard.handle_register("b".to_string(), 11);
    shard.handle_register("c".to_string(), 12);
    let env = RedisMessage {
        from_pod_id: "other".to_string(),
        from_relay_id: 7,
        message_type: RedisMessageType::UserMessage(msg("b", "yo")),
        timestamp: 1,
    };
    let r = shard.handle_redis_message(env, 99);
    let sessions: Vec<u64> = r.iter().filter_map(|x| text(x).map(|t| t.0)).collect();
    assert_eq!(sessions, vec![10, 12]);
    assert_eq!(r.len(), 2);
    assert_eq!(shard.get_metrics().message_count, 1);
    assert_eq!(shard.get_metrics().last_message_time, 99);
}

#[test]
fn bus_join_and_leave_reach_everyone() {
    let mut shard = RelayActor::new(2, 0);
    shard.handle_register("a".to_string(), 10);
    shard.handle_register("b".to_string(), 11);
    let join = RedisMessage {
        from_pod_id: "other".to_string(),
        from_relay_id: 7,
        message_type: RedisMessageType::JoinEvent(JoinEvent { username: "a".to_string() }),
        timestamp: 1,
    };
    assert_eq!(shard.handle_redis_message(join, 5).len(), 2);
    let leave = RedisMessage {
        from_pod_id: "other".to_string(),
        from_relay_id: 7,
        message_type: RedisMessageType::UnRegisterConnection(unreg("z")),
        timestamp: 1,
    };
    assert_eq!(shard.handle_redis_message(leave, 6).len(), 2);
    let beat = RedisMessage {
        from_pod_id: "other".to_string(),
        from_relay_id: 7,
        message_type: RedisMessageType::RelayHeartbeat { relay_id: 7, active_connections: 4 },
        timestamp: 1,
    };
    assert!(shard.handle_redis_message(beat, 7).is_empty());
}

#[test]
fn heartbeat_reports_size() {
    let mut shard = RelayActor::new(4, 0);
    shard.handle_register("a".to_string(), 1);
    shard.handle_register("b".to_string(), 2);
    let h = shard.heartbeat(15_000);
    assert!(matches!(h, ShardAction::Publish {
        kind: ChannelKind::Heartbeat,
        from_relay_id: 4,
        message: RedisMessageType::RelayHeartbeat { relay_id: 4, active_connections: 2 },
    }));
}

#[test]
fn response_time_moving_average() {
    let mut shard = RelayActor::new(4, 0);
    shard.update_response_time(100);
    assert_eq!(shard.get_metrics().avg_response_time, 10);
    shard.update_response_time(100);
    assert_eq!(shard.get_metrics().avg_response_time, 19);
    shard.update_response_time(u64::MAX);
    assert!(shard.get_metrics().avg_response_time > 19);
}

#[test]
fn user_message_counts() {
    let mut shard = RelayActor::new(4, 0);
    shard.handle_user_message(msg("a", "x"));
    shard.handle_user_message(msg("a", "y"));
    assert_eq!(shard.get_metrics().message_count, 2);
    assert_eq!(shard.get_metrics().active_connections, 0);
    assert_eq!(shard.relay_id(), 4);
}
