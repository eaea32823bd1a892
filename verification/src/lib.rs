//! Support for talking to a chain of smart contracts.
pub mod artifact;
pub mod client;
pub mod commit;
pub mod config;
pub mod digest;
pub mod error;
pub mod gas;
pub mod identifiers;
pub mod keys;
pub mod message;
pub mod names;
pub mod poll;
pub mod quantity;
pub mod receipt;
pub mod registry;
pub mod rpc;
pub mod setup;
pub mod signing;
pub mod status;
pub mod storage;
pub mod text;
pub mod trace;
pub mod transaction;
pub mod wire;
