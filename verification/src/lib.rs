//! Live rail service boards for one station: a validated domain model, the
//! normalization of partially missing remote records, request construction
//! for the remote board endpoints, presentation text, and the state machine
//! that drives the periodic refresh loop.

pub mod constants;
pub mod display;
pub mod request;
pub mod scheduler;
pub mod service;
