//! Native bootstrap layer of the PulseLogic desktop shell.
//!
//! The crate models the lifecycle of the application process: an ordered
//! registry of host capabilities enabled at startup, a command bridge that
//! answers the presentation layer's single query, a best-effort diagnostic
//! log, and the bootstrap sequencer that drives the whole run from startup
//! banner to exit report.

pub mod bridge;
pub mod capability;
pub mod logger;
pub mod sequencer;
