//! Command-resolution core of a package manager.
//!
//! Given a command name, the library decides which installed package and
//! module should run it, searching a local per-project installation first
//! and a global per-user installation second. It reconciles two artifacts:
//! the manifest (what the project declares) and the lockfile (what was
//! actually installed). All decision logic is verified; reading files,
//! parsing TOML and touching the environment stay outside the library and
//! hand it plain values.

pub mod config;
pub mod find_command_result;
pub mod lockfile;
pub mod manifest;
pub mod paths;
pub mod strutil;

pub use strutil::str_eq;
