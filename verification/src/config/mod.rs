//! The configuration: its sections, their defaults, and what the running
//! system reads from them.

pub mod defaults;
pub mod load;
pub mod types;

pub use types::{
    AppConfig, DatabaseConfig, DetailedFingerprintConfig, DisplayConfig, EmailConfig,
    FingerprintConfig, PocConfig, PocSwitchConfig, ProbeConfig, ReportConfig, ReportFormat,
    ScanPortsConfig, SchedulerConfig, WebConfig,
};
