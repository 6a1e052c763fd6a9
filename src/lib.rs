//! Core of a trading bot for binary-outcome prediction markets: domain
//! values, risk gating, strategy evaluation, market-data aggregation and the
//! decisions of the order pipeline, all over fixed-point quantities.
//!
//! The I/O around it (feeds, the venue's HTTP API, the store, the control
//! plane) hands this library plain values and performs what it decides.

pub mod fixed;
pub mod text;
pub mod table;
pub mod domain;
pub mod config;
pub mod runtime;
pub mod risk;
pub mod strategy;
pub mod latency_arb;
pub mod intra_arb;
pub mod feeds;
pub mod venue;
pub mod order_manager;
pub mod normalize;
pub mod reconnect;
pub mod store;
