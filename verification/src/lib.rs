//! Deterministic mount-point resolution and idempotent mount orchestration
//! for self-executing archives (a plaintext header followed by an embedded
//! filesystem image).
//!
//! The library holds the decision logic: computing the per-user,
//! per-namespace mount directory, naming the sibling lockfile, recognising
//! the sentinel line that ends an archive header, classifying mount-table
//! observations, and the orchestration state machine that prepares
//! directories, invokes the external mount helper at most once, polls for
//! mount visibility under a bounded deadline, and heartbeats the lockfile.
//! All filesystem and process effects are performed by the caller, which
//! feeds their observed outcomes back in as plain values.

pub mod decimal;
pub mod errors;
pub mod header;
pub mod mount_state;
pub mod orchestrator;
pub mod resolve;
