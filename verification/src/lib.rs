//! Lifecycle engine of a background worker that an operating system's service
//! control subsystem installs, starts, signals and stops.
//!
//! Everything here is a decision: which status to report, what a control signal
//! means, which request an administrative command makes next. Talking to the
//! platform is left to the caller, who performs each action and hands back what
//! happened.

pub mod admin;
pub mod args;
pub mod control;
pub mod coordinator;
pub mod entry;
pub mod identity;
pub mod lifecycle;
pub mod registration;
