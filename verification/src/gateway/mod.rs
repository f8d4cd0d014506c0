//! One shard: a persistent, stateful session with the service's gateway.
//!
//! The modules here decide; they do not wait and they do not touch a socket.
//! A driver owns the transport and the timers, hands each thing that happens
//! to [`shard::Shard::step`] and carries out the action that comes back.

pub mod opcode;
pub mod session;
pub mod ratelimit;
pub mod backoff;
pub mod close;
pub mod heartbeat;
pub mod scan;
pub mod codec;
pub mod frame;
pub mod command;
pub mod shard_id;
pub mod shard;
pub mod theorems;
