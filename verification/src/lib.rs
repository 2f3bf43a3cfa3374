//! Supervisor logic for a desktop shell that keeps one backend server
//! process alive: locating a runnable server, clearing the fixed port,
//! launching, probing readiness and tearing the process down again.
//!
//! The crate holds the decisions only. Callers perform the file, process
//! and network operations and hand the observations in as plain values.

pub mod command;
pub mod database;
pub mod dependencies;
pub mod launcher;
pub mod layout;
pub mod locator;
pub mod migration;
pub mod prober;
pub mod reaper;
pub mod report;
pub mod session;
pub mod startup;
pub mod supervisor;
pub mod teardown;
pub mod text;
