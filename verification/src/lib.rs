//! Diagnostic reporting for collections of execution-trace snapshots.
//!
//! A snapshot belongs to an execution frame and is either a coarse-grained
//! hook snapshot or a fine-grained opcode snapshot. This crate turns an
//! insertion-ordered collection of `(frame id, snapshot)` pairs into
//! aggregate statistics and a deterministic, hierarchical textual report
//! grouped by frame.

pub mod group;
pub mod icons;
pub mod numfmt;
pub mod render;
pub mod snapshot;
pub mod stats;
