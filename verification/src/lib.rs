//! Core of a tracing job server: a bounded line buffer, per-job lifecycle
//! records, a registry of jobs, the runner's event-handling state machine,
//! retention sweeping, and the service facade that callers poll.

pub mod buffer;
pub mod idgen;
pub mod numfmt;
pub mod record;
pub mod registry;
pub mod runner;
pub mod service;
pub mod text;
