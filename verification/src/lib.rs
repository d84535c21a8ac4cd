//! A length-prefixed message proxy core: framing, connection lifecycle,
//! traffic statistics, and the state machines of a panic-isolating worker pool.

pub mod channel;
pub mod error;
pub mod logger;
pub mod message;
pub mod pool;
pub mod proxy;
pub mod socket;
pub mod stats;
pub mod time;
