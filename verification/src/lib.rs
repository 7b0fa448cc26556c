//! A verified binding layer over a streaming-platform client: a connection
//! handle owning an optional native client, capability factories gated on
//! attachment, translation of a dynamic configuration object into a typed
//! producer configuration, and a single message-carrying error that crosses
//! the host boundary.

pub mod config;
pub mod connection;
pub mod error;
pub mod factory;
