//! A verified engine for resumable, concurrent multipart uploads to a
//! B2-style object store.
//!
//! The library holds the logic of the upload pipeline: the typed protocol
//! data, the wire encodings, the part plan, the per-file session state
//! machine with its retry and rollback rules, and the progress arithmetic.
//! The surrounding process performs the HTTP calls, the file reads and the
//! task scheduling, and drives the state machines with the outcomes.

pub mod checksum;
pub mod client;
pub mod config;
pub mod crop;
pub mod encoding;
pub mod engine;
pub mod plan;
pub mod progress;
pub mod structs;
pub mod upload;
