//! A client library for a real-time, push-based chat service: the data model,
//! validated request builders, and the decision core of one gateway shard.

pub mod gateway;
pub mod model;
pub mod request;
pub mod text;
