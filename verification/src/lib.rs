//! A verified core for a concurrent resource-discovery engine.
//!
//! The library models the engine's logic as plain data and verified
//! functions: random candidate locators, a bounded prober, response
//! classification, throughput counters, a fixed-cadence reporter, and a
//! fan-out of discoveries to independent sinks. Network and file I/O live
//! outside the library and exchange plain values with it.

pub mod candidate;
pub mod engine;
pub mod fanout;
pub mod prober;
pub mod reporter;
pub mod stats;
pub mod text;
