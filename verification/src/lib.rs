//! Verified core of a DPI-circumvention preconfig tester.
//!
//! Given a catalog of candidate configuration scripts, the tool launches each
//! in turn, waits for the bypass process to appear in the OS process table,
//! probes connectivity to a target domain, classifies the result, and stops
//! at the first candidate that works. This crate holds the verified logic of
//! that pipeline: probe-result classification, the process-lifecycle model,
//! and the trial orchestration; the surrounding I/O (HTTP requests, process
//! spawning and killing, the terminal) lives outside it.

pub mod catalog;
pub mod config;
pub mod domain;
pub mod lists;
pub mod orchestrator;
pub mod probe;
pub mod process;
pub mod service;
pub mod ui;
pub mod text;
