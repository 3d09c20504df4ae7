//! Request and response shapes of the administrative interface.
pub mod agents;
pub mod calls;
pub mod claims;
pub mod health;
pub mod ingress;
pub mod livekit;
pub mod projects;
pub mod rooms;
pub mod service_metrics;
pub mod sip;
pub mod token;
pub mod transcripts;
pub mod webhooks;
