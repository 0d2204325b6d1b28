//! A federation module that lets a quorum of peers threshold-sign a message,
//! together with the per-account ledger that pays for those requests.
//!
//! The host runtime (atomic broadcast, storage, networking) is outside this
//! crate: it hands the library plain values and applies what comes back.
pub mod types;
pub mod table;
pub mod event;
pub mod common;
pub mod crypto;
pub mod config;
pub mod db;
pub mod ledger;
pub mod server;
pub mod client;
pub mod codec;
