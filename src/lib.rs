//! Recurring reminders: delivery, escalation and acknowledgement of
//! reminders for scheduled tasks, with the in-memory tracker that holds the
//! reminders still waiting for an answer.
//!
//! Times are microseconds since the Unix epoch (UTC) and durations are
//! microseconds, both as `i64`.
pub mod model;
pub mod tracker;
pub mod poller;
pub mod escalation;
pub mod acknowledge;
pub mod util;
pub mod commands;
pub mod notice;
