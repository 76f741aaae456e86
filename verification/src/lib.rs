//! Remote-debugging protocol server core: a registry of addressable actor
//! objects that answer JSON messages from attached debugger clients.
//!
//! The crate provides the naming, storage, dispatch and broadcast
//! infrastructure that every feature actor relies on: a name allocator that
//! issues unique actor identifiers, a sharded store of actor handlers, a
//! registry facade with script-object bindings and per-page indices, a
//! protocol dispatcher that routes inbound messages and converts failures
//! into wire-format error replies, and a resource broadcaster that pushes
//! notifications to every attached stream.

pub mod error;
pub mod json;
pub mod name;
pub mod stream;
pub mod store;
pub mod actor;
pub mod actors;
pub mod page;
pub mod registry;
pub mod resource;
pub mod clock;
pub mod laws;
pub mod network_handler;
