//! A pull-based exporter core for networked smart plugs.
//!
//! The library holds the verified heart of the exporter: configuration
//! validation, the per-device collector state machine, and the label-keyed
//! metrics model.  Network transport (the vendor protocol, the scrape
//! endpoint, the polling timer) lives outside and hands the library plain
//! values.

pub mod config;
pub mod device;
pub mod error;
pub mod metrics;
