//! Peer discovery and network orchestration for a rollup node's consensus layer.

pub mod types;
pub mod error;
pub mod varint;
pub mod rlp;
pub mod identity;
pub mod engine;
pub mod discovery;
pub mod task;
pub mod event_loop;
pub mod driver;
