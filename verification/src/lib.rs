//! A verified metrics core for a telephony host: named counters and gauges,
//! a registry with a consistent snapshot/export path, an event aggregator
//! that turns host events into metric updates (including derived ASR/ACD
//! gauges), a dynamic get-or-create metric store driven by text commands,
//! and an explicit load/unload lifecycle with a subscription ledger.
//!
//! Metric values are fixed-point decimals (ten-to-the-sixth scale) held in
//! an `i64`, with saturating arithmetic; every operation's exact effect is
//! stated in its contract.

pub mod text;
pub mod value;
pub mod metric;
pub mod event;
pub mod catalog;
pub mod aggregator;
pub mod registry;
pub mod export;
pub mod lifecycle;
pub mod commands;
pub mod laws;
