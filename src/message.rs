//! Messages exchanged with clients and with the backend.

/// Messages of the binary backend protocol.
pub mod data_server;
/// Messages of the textual client protocol.
pub mod cache_server;
