//! Measured HTTP download speed reporting.
//!
//! The crate models a single streaming download: a tracker that counts body
//! bytes and timing checkpoints as chunks arrive, a pure formatter that turns
//! byte rates into display strings under four unit conventions, and builders
//! for the machine-readable result rows. All times are carried as integer
//! microseconds and all rates as integer millibytes per second, so that every
//! figure printed is computed by verified integer arithmetic.

pub mod config;
pub mod downloader;
pub mod output;
pub mod servers;
pub mod strnum;
pub mod text;
pub mod units;
