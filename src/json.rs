//! The JSON text of what goes to clients and onto the bus. Field names and
//! variant tags are the wire format's; string literals are escaped by serde_json.

use vstd::prelude::*;
use vstd::string::*;
use crate::messages::{ClientEvent, RedisMessage, RedisMessageType};
use crate::platform::{decimal, decimal_string, json_quote, json_string};

verus! {

/// `{"username":..,"content":..}`
pub open spec fn user_message_text(username: Seq<char>, content: Seq<char>) -> Seq<char> {
    "{\"username\":"@ + json_string(username) + ",\"content\":"@ + json_string(content) + "}"@
}

/// `{"username":..}`
pub open spec fn username_text(username: Seq<char>) -> Seq<char> {
    "{\"username\":"@ + json_string(username) + "}"@
}

/// The text written to a client for an event.
pub open spec fn client_event_text(ev: ClientEvent) -> Seq<char> {
    match ev {
        ClientEvent::UserMessage(m) => user_message_text(m.username@, m.content@),
        ClientEvent::JoinEvent(j) => username_text(j.username@),
        ClientEvent::UnRegisterConnection(u) => username_text(u.username@),
    }
}

/// An envelope payload, tagged by its kind.
pub open spec fn payload_text(m: RedisMessageType) -> Seq<char> {
    match m {
        RedisMessageType::UserMessage(u) => "{\"UserMessage\":"@ + user_message_text(u.username@, u.content@) + "}"@,
        RedisMessageType::JoinEvent(j) => "{\"JoinEvent\":"@ + username_text(j.username@) + "}"@,
        RedisMessageType::UnRegisterConnection(u) => "{\"UnRegisterConnection\":"@ + username_text(u.username@) + "}"@,
        RedisMessageType::RelayHeartbeat { relay_id, active_connections } => "{\"RelayHeartbeat\":{\"relay_id\":"@
            + decimal(relay_id as nat) + ",\"active_connections\":"@ + decimal(active_connections as nat) + "}}"@,
    }
}

/// A whole envelope.
pub open spec fn envelope_text(m: RedisMessage) -> Seq<char> {
    "{\"from_pod_id\":"@ + json_string(m.from_pod_id@) + ",\"from_relay_id\":"@ + decimal(m.from_relay_id as nat)
        + ",\"message_type\":"@ + payload_text(m.message_type) + ",\"timestamp\":"@ + decimal(m.timestamp as nat) + "}"@
}

fn push_quoted(out: &mut String, s: &String)
    ensures
        final(out)@ == old(out)@ + json_string(s@),
{
    let q = json_quote(s.as_str());
    out.append(q.as_str());
}

fn push_decimal(out: &mut String, n: u64)
    ensures
        final(out)@ == old(out)@ + decimal(n as nat),
{
    let d = decimal_string(n);
    out.append(d.as_str());
}

fn push_user_message(out: &mut String, username: &String, content: &String)
    ensures
        final(out)@ == old(out)@ + user_message_text(username@, content@),
{
    let ghost start = out@;
    out.append("{\"username\":");
    push_quoted(out, username);
    out.append(",\"content\":");
    push_quoted(out, content);
    out.append("}");
    proof {
        assert(out@ =~= start + user_message_text(username@, content@));
    }
}

fn push_username(out: &mut String, username: &String)
    ensures
        final(out)@ == old(out)@ + username_text(username@),
{
    let ghost start = out@;
    out.append("{\"username\":");
    push_quoted(out, username);
    out.append("}");
    proof {
        assert(out@ =~= start + username_text(username@));
    }
}

/// The JSON text frame written to a client for `ev`.
pub fn client_event_json(ev: &ClientEvent) -> (r: String)
    ensures
        r@ == client_event_text(*ev),
{
    let mut out = String::new();
    match ev {
        ClientEvent::UserMessage(m) => push_user_message(&mut out, &m.username, &m.content),
        ClientEvent::JoinEvent(j) => push_username(&mut out, &j.username),
        ClientEvent::UnRegisterConnection(u) => push_username(&mut out, &u.username),
    }
    proof {
        assert(out@ =~= client_event_text(*ev));
    }
    out
}

fn push_payload(out: &mut String, m: &RedisMessageType)
    ensures
        final(out)@ == old(out)@ + payload_text(*m),
{
    let ghost start = out@;
    match m {
        RedisMessageType::UserMessage(u) => {
            out.append("{\"UserMessage\":");
            push_user_message(out, &u.username, &u.content);
            out.append("}");
        },
        RedisMessageType::JoinEvent(j) => {
            out.append("{\"JoinEvent\":");
            push_username(out, &j.username);
            out.append("}");
        },
        RedisMessageType::UnRegisterConnection(u) => {
            out.append("{\"UnRegisterConnection\":");
            push_username(out, &u.username);
            out.append("}");
        },
        RedisMessageType::RelayHeartbeat { relay_id, active_connections } => {
            out.append("{\"RelayHeartbeat\":{\"relay_id\":");
            push_decimal(out, *relay_id as u64);
            out.append(",\"active_connections\":");
            push_decimal(out, *active_connections as u64);
            out.append("}}");
        },
    }
    proof {
        assert(out@ =~= start + payload_text(*m));
    }
}

/// The JSON text of an envelope as it is published on the bus.
pub fn envelope_json(m: &RedisMessage) -> (r: String)
    ensures
        r@ == envelope_text(*m),
{
    let mut out = String::new();
    out.append("{\"from_pod_id\":");
    push_quoted(&mut out, &m.from_pod_id);
    out.append(",\"from_relay_id\":");
    push_decimal(&mut out, m.from_relay_id as u64);
    out.append(",\"message_type\":");
    push_payload(&mut out, &m.message_type);
    out.append(",\"timestamp\":");
    push_decimal(&mut out, m.timestamp);
    out.append("}");
    proof {
        assert(out@ =~= envelope_text(*m));
    }
    out
}

} // verus!
