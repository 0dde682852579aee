//! A download engine for file sets that are served by several mirrors.
//!
//! The crate holds the decisions of the engine: which mirror to ask next, when
//! to retry, when a file on disk is already good, what a finished run reports.
//! The caller performs the requests and the file operations and hands their
//! results back as plain values.
//!
//! - [`workflow`] is the work on one manifest entry, [`run`] the walk through
//!   the manifest, [`transfer`] one transfer attempt, [`retry`] the bounded
//!   retry loop, [`mirror`] the probing of mirrors.
//! - [`integrity`] decides whether a file is valid; [`progress`] counts bytes
//!   and files.
//! - [`config`], [`version`], [`manifest`], [`json`] and [`body`] read what
//!   the servers send before a run begins.
//! - [`guarantees`] states what holds of every run.

pub mod body;
pub mod clock;
pub mod config;
pub mod guarantees;
pub mod integrity;
pub mod json;
pub mod manifest;
pub mod mirror;
pub mod number;
pub mod outcome;
pub mod path;
pub mod progress;
pub mod report;
pub mod retry;
pub mod run;
pub mod text;
pub mod transfer;
pub mod version;
pub mod workflow;
