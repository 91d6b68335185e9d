//! A local process supervisor: it tracks the lifecycle of exactly one
//! external long-running backend process under concurrent `start` / `stop`
//! commands, and decides when the one-shot `ready` notification is emitted.
//!
//! The supervisor itself never performs an OS call. The embedding
//! application holds a [`supervisor::Supervisor`] under its lock, asks it
//! what a command must do, performs the launch or kill, and hands the
//! outcome back to be recorded. All state transitions and the reported
//! statuses are decided here, under contract.

pub mod config;
pub mod laws;
pub mod readiness;
pub mod supervisor;
