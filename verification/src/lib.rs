//! Orchestration engine for running an in-browser test suite against one or
//! more remote browser sessions: a provisioned self-signed certificate, an
//! encrypted static-asset server plan, a per-session lifecycle state machine,
//! and result aggregation across a configurable browser matrix.

pub mod config;
pub mod orchestrator;
pub mod outcome;
pub mod poll;
pub mod protocol;
pub mod provision;
pub mod server;
pub mod session;
