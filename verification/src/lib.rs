//! Verified core of a reconnaissance-scan orchestrator.
//!
//! The heart of the crate is a streaming subprocess monitor: it classifies
//! the line-oriented progress output of a long-running scanner, derives
//! (phase, percent-complete, elapsed) status updates, and records every raw
//! line for later reconstruction of the full captured output.  Around it
//! stand the pure helpers the orchestrator needs: path and URL construction,
//! scan-command assembly, summary generation, and resource lookup.

pub mod classify;
pub mod command;
pub mod monitor;
pub mod paths;
pub mod report;
pub mod resource;
pub mod summary;
pub mod text;
