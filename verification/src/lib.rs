//! Scheduling and delivery of social-media posts.
//!
//! The crate holds the job queue with its claim protocol, the dispatcher that
//! turns a claimed job into a delivery attempt, the platform adapters, and the
//! polling cycle that drives them. Network and database traffic is left to the
//! caller: every function here works on plain values.

pub mod claim_order;
pub mod composer;
pub mod dispatcher;
pub mod http;
pub mod integrations;
pub mod job_queue;
pub mod json;
pub mod poller;
pub mod settings;
pub mod text;
pub mod theme;
