//! Watches a directory for completed CSV files, loads each into one table of
//! a ClickHouse store, and then removes the file or moves it aside.
//!
//! The library holds the decisions: which notified paths are CSV files, how
//! the configuration is checked, how the load statement reads, and what is
//! done with each file after its read and load. Reading files, watching the
//! directory and talking to the store are done around it.

pub mod cli;
pub mod handler;
pub mod inserter;
pub mod paths;
pub mod pipeline;
pub mod processing;
pub mod text;
pub mod watcher;
