//! Verified core of a tracker-module sample-extraction binding.
//!
//! The library holds the logic that a host binding needs around an external
//! sample-extraction engine: building one extraction configuration from
//! optional caller overrides, pre-checking file extensions against the
//! supported set, classifying every failure the engine can report into a
//! stable error vocabulary with deterministic messages, and reducing the
//! per-path outcomes of a batch into a single aggregate result.
//!
//! Driving the engine itself (filesystem reads and writes) is left to the
//! embedding layer; it hands this library plain values and takes plain
//! values back.

pub mod api;
pub mod batch;
pub mod config;
pub mod error;
pub mod text;
