//! Messages exchanged between sessions, relay shards and the pub/sub bus.

use vstd::prelude::*;

verus! {

/// A user joined a shard.
pub struct JoinEvent {
    pub username: String,
}

/// A user left a shard.
pub struct UnRegisterConnection {
    pub username: String,
}

/// A chat message sent by `username`.
pub struct UserMessage {
    pub username: String,
    pub content: String,
}

/// The payload of a bus envelope.
pub enum RedisMessageType {
    UserMessage(UserMessage),
    JoinEvent(JoinEvent),
    UnRegisterConnection(UnRegisterConnection),
    RelayHeartbeat { relay_id: u32, active_connections: usize },
}

/// A bus envelope: a payload with its origin.
pub struct RedisMessage {
    pub from_pod_id: String,
    pub from_relay_id: u32,
    pub message_type: RedisMessageType,
    pub timestamp: u64,
}

/// An event that a shard hands to one of its sessions, to be written to the client.
pub enum ClientEvent {
    UserMessage(UserMessage),
    JoinEvent(JoinEvent),
    UnRegisterConnection(UnRegisterConnection),
}

impl Clone for JoinEvent {
    fn clone(&self) -> (r: Self)
        ensures
            r == *self,
    {
        JoinEvent { username: self.username.clone() }
    }
}

impl Clone for UnRegisterConnection {
    fn clone(&self) -> (r: Self)
        ensures
            r == *self,
    {
        UnRegisterConnection { username: self.username.clone() }
    }
}

impl Clone for UserMessage {
    fn clone(&self) -> (r: Self)
        ensures
            r == *self,
    {
        UserMessage { username: self.username.clone(), content: self.content.clone() }
    }
}

impl Clone for RedisMessageType {
    fn clone(&self) -> (r: Self)
        ensures
            r == *self,
    {
        match self {
            RedisMessageType::UserMessage(m) => RedisMessageType::UserMessage(m.clone()),
            RedisMessageType::JoinEvent(m) => RedisMessageType::JoinEvent(m.clone()),
            RedisMessageType::UnRegisterConnection(m) => RedisMessageType::UnRegisterConnection(
                m.clone(),
            ),
            RedisMessageType::RelayHeartbeat { relay_id, active_connections } => {
                RedisMessageType::RelayHeartbeat {
                    relay_id: *relay_id,
                    active_connections: *active_connections,
                }
            },
        }
    }
}

impl Clone for RedisMessage {
    fn clone(&self) -> (r: Self)
        ensures
            r == *self,
    {
        RedisMessage {
            from_pod_id: self.from_pod_id.clone(),
            from_relay_id: self.from_relay_id,
            message_type: self.message_type.clone(),
            timestamp: self.timestamp,
        }
    }
}

impl Clone for ClientEvent {
    fn clone(&self) -> (r: Self)
        ensures
            r == *self,
    {
        match self {
            ClientEvent::UserMessage(m) => ClientEvent::UserMessage(m.clone()),
            ClientEvent::JoinEvent(m) => ClientEvent::JoinEvent(m.clone()),
            ClientEvent::UnRegisterConnection(m) => ClientEvent::UnRegisterConnection(m.clone()),
        }
    }
}

} // verus!
