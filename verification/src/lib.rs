//! Verified core of the watcher asset-monitoring toolkit: argument rules,
//! configuration, storage, parsers of scan output and monitoring decisions.

pub mod cli;
pub mod config;
pub mod daemon;
pub mod dashboard;
pub mod db;
pub mod error;
pub mod import;
pub mod local_time;
pub mod log_fields;
pub mod models;
pub mod monitor;
pub mod notify;
pub mod paths;
pub mod port_set;
pub mod search;
pub mod string_set;
pub mod text;
pub mod urls;
