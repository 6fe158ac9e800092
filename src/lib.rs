//! Cache node between clients and an authoritative backend: message types,
//! the cache-aside / write-through decisions, and the discipline of the single
//! backend connection.

pub mod message;
pub mod orchestration;
pub mod transport;
