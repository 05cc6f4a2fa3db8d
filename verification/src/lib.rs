//! A lightweight recurring-job scheduler core: cron-style recurrence
//! expressions, per-job runner state machines, and a single-writer dispatcher
//! that admits new jobs into a persisted job set.

pub mod dispatcher;
pub mod error;
pub mod job;
pub mod runner;
pub mod schedule;
