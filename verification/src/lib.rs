//! A minimal updater stub, split into two independent pieces: a download
//! routine that plans where a fetched installer file goes and what bytes are
//! written into it, and a command runner that selects a platform shell
//! invocation and reports what the child process printed.
//!
//! The decisions and the report formatting live here, verified; the network,
//! the file system and the child process are driven by the surrounding
//! program, which hands plain values in and takes plain values back.

pub mod command;
pub mod config;
pub mod download;
pub mod naming;
pub mod report;
pub mod text;
