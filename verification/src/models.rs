//! Shared data models used across storage, probes and reports.
//!
//! Timestamps are RFC 3339 strings; `Alert` and `Vulnerability` carry them
//! normalised to UTC.

use vstd::prelude::*;

verus! {

/// A domain name recorded for a business system.
#[derive(Debug, Clone)]
pub struct DomainAsset {
    pub id: String,
    pub system_id: String,
    pub system_name: String,
    pub name: String,
    pub bind_ip: Option<String>,
    pub is_baseline: bool,
}

/// An IP address recorded for a business system.
#[derive(Debug, Clone)]
pub struct IpAsset {
    pub id: String,
    pub system_id: String,
    pub system_name: String,
    pub ip: String,
    pub source: String,
    pub is_baseline: bool,
}

/// A TCP port recorded for a business system.
#[derive(Debug, Clone)]
pub struct PortAsset {
    pub id: String,
    pub system_id: String,
    pub system_name: String,
    pub ip_id: Option<String>,
    pub ip: Option<String>,
    pub port: u16,
    pub state: String,
    pub service: Option<String>,
    pub fingerprint: Option<String>,
    pub is_web: bool,
    pub scheme: Option<String>,
    pub is_baseline: bool,
}

/// Per-IP outcome of one port scan.
#[derive(Debug, Clone, PartialEq, Eq)]
pub struct ScanSummary {
    pub id: String,
    pub batch_id: String,
    pub system_id: Option<String>,
    pub ip_id: Option<String>,
    pub ip: String,
    pub probed_ports: i64,
    pub open_count: i64,
    pub opened_ports: Option<String>,
    pub closed_ports: Option<String>,
    pub created_at: String,
}

/// A URL recorded for a business system.
#[derive(Debug, Clone)]
pub struct UrlAsset {
    pub id: String,
    pub system_id: String,
    pub system_name: String,
    pub url: String,
    pub source: String,
    pub status_code: Option<u16>,
    pub value_score: i64,
    pub is_baseline: bool,
}

/// One monitoring batch.
#[derive(Debug, Clone)]
pub struct BatchRow {
    pub id: String,
    pub status: String,
    pub started_at: String,
    pub ended_at: Option<String>,
    pub report_zip: Option<String>,
}

/// A batch with its alert and vulnerability counts.
#[derive(Debug, Clone)]
pub struct BatchStatus {
    pub batch_id: String,
    pub status: String,
    pub started_at: String,
    pub ended_at: Option<String>,
    pub alerts: i64,
    pub vulnerabilities: i64,
}

/// One stored application log record.
#[derive(Debug, Clone)]
pub struct LogRow {
    pub id: String,
    pub created_at: String,
    pub level: String,
    pub target: String,
    pub message: String,
    pub fields: Option<String>,
}

/// An asset-change or finding alert.
#[derive(Debug, Clone)]
pub struct Alert {
    pub id: String,
    pub batch_id: String,
    pub system_id: Option<String>,
    pub system_name: Option<String>,
    pub kind: String,
    pub severity: String,
    pub subject: String,
    pub old_value: Option<String>,
    pub new_value: Option<String>,
    pub details: Option<String>,
    /// RFC 3339, UTC.
    pub created_at: String,
}

/// A confirmed vulnerability finding.
#[derive(Debug, Clone)]
pub struct Vulnerability {
    pub id: String,
    pub batch_id: String,
    pub system_id: String,
    pub system_name: String,
    pub url: String,
    pub poc: String,
    pub severity: String,
    pub evidence: String,
    /// RFC 3339, UTC.
    pub created_at: String,
}

/// The identity of a running batch.
#[derive(Debug, Clone)]
pub struct BatchContext {
    pub id: String,
    /// RFC 3339, UTC.
    pub started_at: String,
}

/// Everything the operations dashboard shows.
#[derive(Debug, Clone)]
pub struct DashboardSnapshot {
    pub generated_at: String,
    pub assets: DashboardAssetCounts,
    pub latest_batch: Option<DashboardBatch>,
    pub stages: Vec<DashboardStage>,
    pub queue: DashboardQueueCounts,
    pub alert_severity: DashboardSeverityCounts,
    pub recent_alerts: Vec<DashboardAlert>,
}

/// Asset totals shown on the dashboard.
#[derive(Debug, Clone, Copy, PartialEq, Eq)]
pub struct DashboardAssetCounts {
    pub systems: i64,
    pub domains: i64,
    pub ips: i64,
    pub ports: i64,
    pub open_ports: i64,
    pub web_services: i64,
    pub urls: i64,
    pub baseline_assets: i64,
    pub dictionary_paths: i64,
}

/// The latest batch shown on the dashboard.
#[derive(Debug, Clone)]
pub struct DashboardBatch {
    pub id: String,
    pub status: String,
    pub started_at: String,
    pub ended_at: Option<String>,
    pub alerts: i64,
    pub vulnerabilities: i64,
}

/// One stage of the latest batch.
#[derive(Debug, Clone)]
pub struct DashboardStage {
    pub stage: String,
    pub status: String,
    pub started_at: String,
    pub ended_at: Option<String>,
    pub detail: Option<String>,
}

/// Pending-work queue totals.
#[derive(Debug, Clone, Copy, PartialEq, Eq)]
pub struct DashboardQueueCounts {
    pub pending: i64,
    pub running: i64,
    pub done: i64,
}

/// Alert totals of the latest batch by severity.
#[derive(Debug, Clone, Copy, PartialEq, Eq)]
pub struct DashboardSeverityCounts {
    pub critical: i64,
    pub high: i64,
    pub medium: i64,
    pub low: i64,
    pub other: i64,
}

/// One recent alert shown on the dashboard.
#[derive(Debug, Clone)]
pub struct DashboardAlert {
    pub severity: String,
    pub kind: String,
    pub subject: String,
    pub system_name: Option<String>,
    pub created_at: String,
}

} // verus!
