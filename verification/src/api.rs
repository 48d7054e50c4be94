//! The rules of the gateway's outside interfaces: the HTTP routes, the
//! store, the bus and the upstream client.

pub mod handler;
pub mod http;
pub mod keys;
pub mod nats;
pub mod redis;
