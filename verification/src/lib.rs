//! Federation core: the decision logic of a federated content platform.
//!
//! The crate holds the rules by which request handlers sequence their
//! storage work, the object resolver's cache discipline, the outbound
//! dispatcher's queue and audience rules, the delivery retry policy and
//! the inbound signature verdicts. Every function is a plain function on
//! values; the surrounding program performs the storage and network work
//! and hands the outcomes back in.

pub mod ids;
pub mod error;
pub mod search;
pub mod keyed;
pub mod resolver;
pub mod delivery;
pub mod dispatch;
pub mod pool;
pub mod signature;
pub mod private_message;
pub mod remove_post;
pub mod read_community;
