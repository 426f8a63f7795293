//! Node-lifecycle manager for a black-box test harness.
//!
//! The library resolves a node's start command into metadata, stages node
//! instances, and tracks each instance's process lifecycle: argument
//! assembly for launching, address discovery results, and stop with
//! exit-status classification. All process and filesystem work is done by
//! the surrounding harness, which reports its observations back to the
//! library as plain values; the library's state transitions are verified.

pub mod config;
pub mod node;
