//! Filesystem-entry-to-response mapping.
//!
//! The library turns raw directory/file read outcomes — delivered as plain
//! values by an unverified shell that performs the actual operating-system
//! calls — into structured, always-fully-populated response values: directory
//! entry descriptors, file content records, and tagged per-item or top-level
//! errors.  File bytes that are not valid UTF-8 are carried as a reversible
//! URL-safe base64 encoding.

pub mod content;
pub mod dirent;
pub mod errors;
pub mod file;
pub mod metadata;
pub mod paths;
pub mod query;
