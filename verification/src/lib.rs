//! The decision logic of a periodic database backup service.
//!
//! Each cycle walks the configured jobs one at a time: the job's host and
//! bucket are looked up, the databases are dumped, the scratch directory is
//! archived under a timestamped name and the archive is uploaded. A failure
//! ends the job it belongs to and nothing else.
//!
//! The library performs none of the effects itself. [`scheduler::Scheduler`]
//! says which action is due, and is told how it went.

pub mod action;
pub mod archive;
pub mod clock;
pub mod config;
pub mod error;
pub mod export;
pub mod invocation;
pub mod laws;
pub mod layout;
pub mod notice;
pub mod pipeline;
pub mod resolver;
pub mod scheduler;
pub mod text;
pub mod upload;
