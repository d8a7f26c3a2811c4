//! Uptime monitoring core: a poll-loop state machine that probes one site
//! until a time of day, a deduplicated store of latency samples, the sample
//! file encoding, and the report that is mailed at the end of a run.

pub mod clock;
pub mod form;
pub mod monitor;
pub mod persist;
pub mod report;
pub mod store;
pub mod text;
