//! Verified core of a horizontally scalable chat fan-out service: message
//! types, relay shards, the relay and pod balancers, the socket session state
//! machine, the bus client's pure decisions, and the JSON text of outbound
//! messages.

pub mod messages;
pub mod metrics;
pub mod shard;
pub mod balancer;
pub mod bus;
pub mod json;
pub mod load_balancer;
pub mod platform;
pub mod session;
