//! Monitoring pipeline decisions: progress pacing, fingerprint parsing and
//! web-exposure scoring.

pub mod detailed_fingerprint;
pub mod dns;
pub mod fingerprint;
pub mod http;
pub mod ports;
pub mod progress;
pub mod scheduler;
pub mod vuln;
pub mod vuln_sourcemap;
pub mod web_enum;
