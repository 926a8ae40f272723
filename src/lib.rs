//! Synchronises the listing of a streamer's broadcasts and clips from the
//! platform's REST API: token exchange, channel lookup, cursor pagination,
//! readiness filtering and the per-channel bookkeeping of a pull run.
//!
//! Network and file-system work is not done here: the run is a state machine
//! that names each request or directory it needs and is told the outcome.

pub mod collector;
pub mod json;
pub mod pull;
pub mod twitch;
pub mod util;
