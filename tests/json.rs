use websocket::json::{client_event_json, envelope_json};
use websocket::messages::{ClientEvent, JoinEvent, RedisMessage, RedisMessageType, UnRegisterConnection, UserMessage};

fn env(t: RedisMessageType) -> RedisMessage {
    RedisMessage { from_pod_id: "pod-1".to_string(), from_relay_id: 3, message_type: t, timestamp: 1_700_000_000 }
}

fn parse(s: &str) -> serde_json::Value {
    serde_json::from_str(s).unwrap()
}

#[test]
fn client_payloads() {
    let m = ClientEvent::UserMessage(UserMessage { username: "alice".to_string(), content: "hi".to_string() });
    assert_eq!(client_event_json(&m), "{\"username\":\"alice\",\"content\":\"hi\"}");
    let j = ClientEvent::JoinEvent(JoinEvent { username: "bob".to_string() });
    assert_eq!(client_event_json(&j), "{\"username\":\"bob\"}");
    let l = ClientEvent::UnRegisterConnection(UnRegisterConnection { username: "bob".to_string() });
    assert_eq!(client_event_json(&l), "{\"username\":\"bob\"}");
}

#[test]
fn strings_are_escaped() {
    let m = ClientEvent::UserMessage(UserMessage { username: "a\"b".to_string(), content: "line\nnext \\ é".to_string() });
    let s = client_event_json(&m);
    assert_eq!(s, "{\"username\":\"a\\\"b\",\"content\":\"line\\nnext \\\\ é\"}");
    let v = parse(&s);
    assert_eq!(v["username"], "a\"b");
    assert_eq!(v["content"], "line\nnext \\ é");
}

#[test]
fn envelope_round_trip_user_message() {
    let s = envelope_json(&env(RedisMessageType::UserMessage(UserMessage { username: "al\"ice".to_string(), content: "hi\t!".to_string() })));
    let v = parse(&s);
    assert_eq!(v["from_pod_id"], "pod-1");
    assert_eq!(v["from_relay_id"], 3);
    assert_eq!(v["timestamp"], 1_700_000_000u64);
    assert_eq!(v["message_type"]["UserMessage"]["username"], "al\"ice");
    assert_eq!(v["message_type"]["UserMessage"]["content"], "hi\t!");
    assert_eq!(v.as_object().unwrap().len(), 4);
}

#[test]
fn envelope_round_trip_join_and_leave() {
    let v = parse(&envelope_json(&env(RedisMessageType::JoinEvent(JoinEvent { username: "bob".to_string() }))));
    assert_eq!(v["message_type"]["JoinEvent"]["username"], "bob");
    let v = parse(&envelope_json(&env(RedisMessageType::UnRegisterConnection(UnRegisterConnection { username: "bob".to_string() }))));
    assert_eq!(v["message_type"]["UnRegisterConnection"]["username"], "bob");
}

#[test]
fn envelope_round_trip_heartbeat() {
    let s = envelope_json(&env(RedisMessageType::RelayHeartbeat { relay_id: 12, active_connections: 340 }));
    assert_eq!(
        s,
        "{\"from_pod_id\":\"pod-1\",\"from_relay_id\":3,\"message_type\":{\"RelayHeartbeat\":{\"relay_id\":12,\"active_connections\":340}},\"timestamp\":1700000000}"
    );
    let v = parse(&s);
    assert_eq!(v["message_type"]["RelayHeartbeat"]["relay_id"], 12);
    assert_eq!(v["message_type"]["RelayHeartbeat"]["active_connections"], 340);
}
