//! Process discovery and optimization controller.
//!
//! The library models the scheduling-optimization core of a process
//! management tool: it snapshots a process table, filters for a target
//! executable name, escalates privileges on a security context, and applies
//! priority and CPU-affinity mutations to each matching process with
//! graceful degradation under partial failure.  All operating-system work
//! (taking the snapshot, opening handles, mutating scheduler state) happens
//! outside the library; callers hand the outcomes in as plain values and
//! every decision made on them is verified.

pub mod affinity;
pub mod controller;
pub mod errors;
pub mod inspector;
pub mod ladder;
pub mod priority;
pub mod privileges;
pub mod snapshot;
pub mod text;
