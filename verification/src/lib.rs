//! A verified workflow engine for listing a new asset on an exchange.
//!
//! A single listing request triggers three dependent operations against
//! other on-chain modules: create a fungible token, register a trading
//! pair for it, and submit a governance proposal describing the new pool.
//! Each operation's outcome arrives later as a completion notification,
//! so the engine persists its continuation state before every suspension
//! and resumes from the matching correlation id.
//!
//! The host plumbing (storage backend, message serialization, entry-point
//! glue) lives outside this crate; the engine here works on plain values
//! and is verified end to end, including the byte-exact protobuf payload
//! of the governance call.

pub mod asset;
pub mod contract;
pub mod decode;
pub mod encode;
pub mod error;
pub mod msg;
pub mod response;
pub mod state;
