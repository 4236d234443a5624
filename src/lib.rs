//! Download, validation and installation pipeline for model artifacts.
//!
//! Paths are handled as `/`-separated strings; all file and network access
//! is left to the caller, which hands the library what it read.

pub mod checksum;
pub mod paths;
pub mod format;
mod ids;
pub mod validation;
pub mod download;
pub mod catalog;
pub mod workflow;
