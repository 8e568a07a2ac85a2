//! Wire types: what travels over the pub/sub bus and over the work queue.

pub mod nats;
pub mod redis;
