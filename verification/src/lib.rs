//! A single named region of memory that independent processes map and read as
//! one shared value of a fixed plain-data type.
//!
//! This crate holds the decisions: how a segment is named, in which order the
//! operating system is asked for what, how its replies are judged, and what a
//! segment owes on teardown. The caller performs the system calls that the
//! decisions ask for and reports back what the system answered.
//!
//! Nothing here synchronises access to the shared value: every reference into
//! it is an unsynchronised alias, and ordering between processes is the
//! caller's business. Ownership is a plain flag and not a reference count:
//! exactly one segment per name may carry it.

pub mod error;
pub mod naming;
pub mod segment;
pub mod config;
pub mod common;
pub mod sh_mem;
pub mod unix;
pub mod windows;
pub mod laws;

pub use config::ShMemCfg;
pub use sh_mem::ShMem;
