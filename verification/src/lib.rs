//! Acquisition and installation of the FFmpeg binaries: where to fetch them
//! for a platform, how to read a version manifest, and the decisions of the
//! download-and-unpack run. The library decides and never performs I/O
//! itself; its caller carries out each action and reports what happened.
//!
//! - [`platform`]: the target and its manifest and download URLs.
//! - [`manifest`]: the version that a manifest names.
//! - [`command`]: the command lines of the transfer and extraction tools.
//! - [`path`] and [`text`]: paths and character sequences.
//! - [`download`]: the run, one decision after each event.
//! - [`trace`]: what holds of whole runs.
//! - [`error`]: the failures.

pub mod command;
pub mod download;
pub mod error;
pub mod manifest;
pub mod path;
pub mod platform;
pub mod text;
pub mod trace;
