//! Deployment and lifecycle supervision of media-room agent workloads.
//!
//! The modules hold the decisions of the supervisor as verified functions on
//! plain values: the instance state machine, the launch plan of each backend,
//! the parsing of backend readings, the log capture step and the teardown plan.
//! Running commands, talking to a database and spawning tasks is left to the
//! caller, which hands each outcome back to the functions here.

// The supervisor.
pub mod lifecycle;
pub mod deploy;
pub mod metrics;
pub mod log_capture;
pub mod teardown;
pub mod ids;

// Checks and shapes of the administrative interface around it.
pub mod models;
pub mod accounts;
pub mod passwords;
pub mod web;
pub mod status_codes;
pub mod dispatch;
pub mod lists;
pub mod sql;

// Text helpers with exact specifications.
pub mod text;
