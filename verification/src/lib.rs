//! Core of a JSON-RPC reverse proxy: per-vendor upstream request
//! construction, rate-limit detection, body replay, and provider dispatch.
//!
//! The surrounding server (HTTP listener, TLS client pool, configuration)
//! lives outside this crate; it hands the core plain values, performs the
//! network call the core plans, and maps the core's error kinds to
//! client-facing statuses.

pub mod binance;
pub mod chain;
pub mod dispatch;
pub mod error;
pub mod infura;
pub mod pokt;
pub mod providers;
pub mod response;
pub mod table;
