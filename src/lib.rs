//! Core of a host metrics probe: aggregation of interface counters into
//! per-cycle traffic and rates, compensation of the cycle's sleep, checking of
//! the startup configuration, and classification of a submission's outcome.
//!
//! Reading the host's counters, the clock, the HTTP exchange and the sleeping
//! itself happen outside this crate; they hand plain values in and take plain
//! values back.
pub mod config;
pub mod network;
pub mod outcome;
pub mod timing;

pub use config::{Config, ConfigError};
pub use network::{aggregate, per_second, InterfaceCounters, NetworkUsage};
pub use outcome::{classify_response, SubmitOutcome};
pub use timing::{sleep_after, Span, NANOS_PER_SEC};
