use websocket::json::client_event_json;
use websocket::messages::{ClientEvent, JoinEvent, UnRegisterConnection, UserMessage};
use websocket::session::{Frame, SessionAction, SessionState, WsConn};
use websocket::shard::{RelayActor, ShardAction};

#[test]
fn heartbeat_timeout() {
    let mut shard = RelayActor::new(1, 0);
    shard.handle_register("other".to_string(), 2);
    let mut s = WsConn::new("u".to_string(), 0);
    let start = s.started();
    assert!(matches!(&start[..], [SessionAction::Register { username }] if username == "u"));
    shard.handle_register("u".to_string(), 1);
    assert!(matches!(&s.heartbeat_tick(6_000)[..], [SessionAction::Ping]));
    assert!(matches!(&s.heartbeat_tick(12_000)[..], [SessionAction::Ping]));
    assert_eq!(s.state(), SessionState::Active);
    assert!(matches!(&s.heartbeat_tick(18_000)[..], [SessionAction::Close]));
    assert_eq!(s.state(), SessionState::Closing);
    let stop = s.stopped();
    assert_eq!(s.state(), SessionState::Closed);
    let name = match &stop[..] {
        [SessionAction::Unregister { username }] => username.clone(),
        _ => panic!("expected an unregister"),
    };
    let out = shard.handle_unregister(UnRegisterConnection { username: name });
    match &out[0] {
        ShardAction::Deliver { session, event } => {
            assert_eq!(*session, 2);
            assert_eq!(client_event_json(event), "{\"username\":\"u\"}");
        }
        _ => panic!("expected a delivery"),
    }
    assert!(s.stopped().is_empty());
}

#[test]
fn ping_renews_heartbeat() {
    let mut s = WsConn::new("u".to_string(), 0);
    s.started();
    let r = s.handle_frame(Frame::Ping(vec![1, 2]), 10_000);
    assert!(matches!(&r[..], [SessionAction::Pong(p)] if p == &vec![1u8, 2]));
    assert!(matches!(&s.heartbeat_tick(18_000)[..], [SessionAction::Ping]));
    assert!(s.handle_frame(Frame::Pong, 20_000).is_empty());
    assert!(matches!(&s.heartbeat_tick(32_000)[..], [SessionAction::Ping]));
    assert!(matches!(&s.heartbeat_tick(32_001)[..], [SessionAction::Close]));
}

#[test]
fn text_frames() {
    let mut s = WsConn::new("u".to_string(), 0);
    s.started();
    let m = UserMessage { username: "u".to_string(), content: "hey".to_string() };
    let r = s.handle_frame(Frame::Text(Some(m)), 1);
    assert!(matches!(&r[..], [SessionAction::Forward(m)] if m.content == "hey"));
    assert!(s.handle_frame(Frame::Text(None), 2).is_empty());
    assert!(s.handle_frame(Frame::Other, 3).is_empty());
    assert!(matches!(&s.handle_frame(Frame::Close, 4)[..], [SessionAction::Close]));
    assert_eq!(s.state(), SessionState::Closing);
    assert!(s.handle_frame(Frame::Ping(vec![]), 5).is_empty());
}

#[test]
fn outbound_events_written_while_active() {
    let mut s = WsConn::new("u".to_string(), 0);
    let ev = ClientEvent::JoinEvent(JoinEvent { username: "v".to_string() });
    assert!(s.handle_event(ev).is_empty());
    s.started();
    let ev = ClientEvent::JoinEvent(JoinEvent { username: "v".to_string() });
    let r = s.handle_event(ev);
    match &r[..] {
        [SessionAction::Write(e)] => assert_eq!(client_event_json(e), "{\"username\":\"v\"}"),
        _ => panic!("expected a write"),
    }
    assert_eq!(s.username(), "u");
}

#[test]
fn start_only_once() {
    let mut s = WsConn::new("w".to_string(), 0);
    assert!(s.started().len() == 1);
    assert!(s.started().is_empty());
    assert!(matches!(&s.stopped()[..], [SessionAction::Unregister { .. }]));
}
