//! The configuration, section by section, and the rules that read its
//! values.

use vstd::prelude::*;

use crate::error::{self, WatcherError};
use crate::port_set::{strictly_increasing, same_ports, distinct_ports};
use crate::text::{trim, ascii_lower, chars_of, trim_chars, lower_chars, chars_eq_str, string_of};

use super::defaults::{
    default_database_path, default_detailed_fingerprint_concurrency,
    default_detailed_fingerprint_timeout_ms, default_display_timezone, default_nmap_path,
    default_poc_max_js_files_per_url, default_poc_max_map_candidates_per_url,
    default_poc_max_urls_per_batch,
};

verus! {

/// The whole configuration.
#[derive(Debug, Clone)]
pub struct AppConfig {
    /// Where the configuration was read from; not part of the file.
    pub config_path: String,
    pub database: DatabaseConfig,
    pub display: DisplayConfig,
    pub scheduler: SchedulerConfig,
    pub probe: ProbeConfig,
    pub fingerprint: FingerprintConfig,
    pub web: WebConfig,
    pub pocs: PocConfig,
    pub report: ReportConfig,
    pub email: EmailConfig,
}

/// Where the database lives.
#[derive(Debug, Clone)]
pub struct DatabaseConfig {
    pub path: String,
}

impl Default for DatabaseConfig {
    fn default() -> (c: Self)
        ensures
            c.path@ == "~/.config/watcher/watcher.db"@,
    {
        DatabaseConfig { path: default_database_path() }
    }
}

/// How times are shown.
#[derive(Debug, Clone)]
pub struct DisplayConfig {
    pub timezone: String,
}

impl Default for DisplayConfig {
    fn default() -> (c: Self)
        ensures
            c.timezone@ == crate::local_time::DEFAULT_TIMEZONE@,
    {
        DisplayConfig { timezone: default_display_timezone() }
    }
}

/// How often the daemon runs a batch.
#[derive(Debug, Clone, Copy)]
pub struct SchedulerConfig {
    pub interval_minutes: u64,
}

/// Port probing and HTTP requests.
#[derive(Debug, Clone)]
pub struct ProbeConfig {
    pub connect_timeout_ms: u64,
    pub http_timeout_ms: u64,
    pub per_target_delay_ms: u64,
    pub concurrency: usize,
    pub scan_ip_concurrency: usize,
    pub scan_port_concurrency_per_ip: usize,
    pub dns_servers: Vec<String>,
    pub scan_ports: ScanPortsConfig,
}

/// The ports to scan: a list, or a named preset (`full` or `all`).
#[derive(Debug, Clone)]
pub enum ScanPortsConfig {
    List(Vec<u16>),
    Preset(String),
}

/// Every port from 1 to 65535, in order.
pub open spec fn all_ports() -> Seq<u16> {
    Seq::new(65535, |i: int| (i + 1) as u16)
}

/// The lower-cased, trimmed name of a preset.
pub open spec fn preset_key(preset: Seq<char>) -> Seq<char> {
    ascii_lower(trim(preset))
}

/// What expanding a port setting gives: a list's ports sorted and distinct
/// (an empty list is refused), every port for the `full`/`all` presets, and a
/// refusal naming any other preset.
pub open spec fn expansion_outcome(cfg: ScanPortsConfig, r: Result<Vec<u16>, WatcherError>) -> bool {
    match cfg {
        ScanPortsConfig::List(ports) => if ports@.len() == 0 {
            r matches Err(e) && e.is_invalid_with("scan_ports must not be empty"@)
        } else {
            r matches Ok(v) && strictly_increasing(v@) && same_ports(v@, ports@)
        },
        ScanPortsConfig::Preset(p) => if preset_key(p@) == "full"@ || preset_key(p@) == "all"@ {
            r matches Ok(v) && v@ == all_ports()
        } else {
            r matches Err(e) && e.is_invalid_with(
                "unsupported scan_ports preset `"@ + preset_key(p@) + "`; use a port list or `full`/`all`"@,
            )
        },
    }
}

impl ScanPortsConfig {
    /// The ports to scan, distinct and in increasing order: a list as given,
    /// or every port for the `full`/`all` preset. An unknown preset and an
    /// empty list are errors.
    pub fn expand(&self) -> (r: Result<Vec<u16>, WatcherError>)
        ensures
            expansion_outcome(*self, r),
    {
        match self {
            ScanPortsConfig::List(ports) => {
                let v = distinct_ports(ports.as_slice());
                if v.len() == 0 {
                    proof {
                        if ports@.len() > 0 {
                            assert(ports@.contains(ports@[0]));
                            assert(v@.contains(ports@[0]));
                        }
                    }
                    return Err(error::invalid("scan_ports must not be empty"));
                }
                proof {
                    assert(v@.contains(v@[0]));
                    assert(ports@.contains(v@[0]));
                }
                Ok(v)
            },
            ScanPortsConfig::Preset(preset) => {
                let key = lower_chars(&trim_chars(&chars_of(preset.as_str())));
                if chars_eq_str(&key, "full") || chars_eq_str(&key, "all") {
                    let mut v: Vec<u16> = Vec::new();
                    let mut p: u32 = 1;
                    while p <= 65535
                        invariant
                            1 <= p <= 65536,
                            v@.len() == p - 1,
                            forall|k: int| 0 <= k < v@.len() ==> v@[k] == k + 1,
                        decreases 65536 - p,
                    {
                        v.push(p as u16);
                        p = p + 1;
                    }
                    assert(v@ =~= all_ports());
                    Ok(v)
                } else {
                    let shown = string_of(&key);
                    Err(
                        error::invalid3(
                            "unsupported scan_ports preset `",
                            shown.as_str(),
                            "`; use a port list or `full`/`all`",
                        ),
                    )
                }
            },
        }
    }
}

/// Fingerprinting.
#[derive(Debug, Clone)]
pub struct FingerprintConfig {
    pub detailed: DetailedFingerprintConfig,
}

impl Default for FingerprintConfig {
    fn default() -> (c: Self)
        ensures
            !c.detailed.enabled,
            c.detailed.nmap_path@ == "nmap"@,
            c.detailed.timeout_ms == 30_000,
            c.detailed.concurrency == 2,
    {
        FingerprintConfig { detailed: DetailedFingerprintConfig::default() }
    }
}

/// Detailed fingerprinting with nmap.
#[derive(Debug, Clone)]
pub struct DetailedFingerprintConfig {
    pub enabled: bool,
    pub nmap_path: String,
    pub timeout_ms: u64,
    pub concurrency: usize,
}

impl Default for DetailedFingerprintConfig {
    fn default() -> (c: Self)
        ensures
            !c.enabled,
            c.nmap_path@ == "nmap"@,
            c.timeout_ms == 30_000,
            c.concurrency == 2,
    {
        DetailedFingerprintConfig {
            enabled: false,
            nmap_path: default_nmap_path(),
            timeout_ms: default_detailed_fingerprint_timeout_ms(),
            concurrency: default_detailed_fingerprint_concurrency(),
        }
    }
}

impl DetailedFingerprintConfig {
    /// The time one nmap run may take, in milliseconds: at least a second.
    pub fn timeout(&self) -> (ms: u64)
        ensures
            ms == if self.timeout_ms < 1000 {
                1000
            } else {
                self.timeout_ms
            },
    {
        if self.timeout_ms < 1000 {
            1000
        } else {
            self.timeout_ms
        }
    }

    /// How many nmap runs go at once: between 1 and 8.
    pub fn concurrency(&self) -> (n: usize)
        ensures
            n == if self.concurrency < 1 {
                1
            } else if self.concurrency > 8 {
                8
            } else {
                self.concurrency
            },
    {
        if self.concurrency < 1 {
            1
        } else if self.concurrency > 8 {
            8
        } else {
            self.concurrency
        }
    }
}

/// Web path enumeration.
#[derive(Debug, Clone)]
pub struct WebConfig {
    pub max_paths_per_service: usize,
    pub max_js_paths_per_service: usize,
    pub negative_body_markers: Vec<String>,
}

/// The vulnerability checks.
#[derive(Debug, Clone)]
pub struct PocConfig {
    pub webpack_sourcemap_disclosure: PocSwitchConfig,
}

impl Default for PocConfig {
    fn default() -> (c: Self)
        ensures
            c.webpack_sourcemap_disclosure.enabled,
            c.webpack_sourcemap_disclosure.max_urls_per_batch == 1000,
            c.webpack_sourcemap_disclosure.max_js_files_per_url == 20,
            c.webpack_sourcemap_disclosure.max_map_candidates_per_url == 20,
    {
        PocConfig { webpack_sourcemap_disclosure: PocSwitchConfig::default() }
    }
}

/// One vulnerability check and its limits.
#[derive(Debug, Clone, Copy)]
pub struct PocSwitchConfig {
    pub enabled: bool,
    pub max_urls_per_batch: usize,
    pub max_js_files_per_url: usize,
    pub max_map_candidates_per_url: usize,
}

impl Default for PocSwitchConfig {
    fn default() -> (c: Self)
        ensures
            c.enabled,
            c.max_urls_per_batch == 1000,
            c.max_js_files_per_url == 20,
            c.max_map_candidates_per_url == 20,
    {
        PocSwitchConfig {
            enabled: true,
            max_urls_per_batch: default_poc_max_urls_per_batch(),
            max_js_files_per_url: default_poc_max_js_files_per_url(),
            max_map_candidates_per_url: default_poc_max_map_candidates_per_url(),
        }
    }
}

/// At least one.
pub open spec fn at_least_one(n: usize) -> usize {
    if n < 1 {
        1
    } else {
        n
    }
}

impl PocSwitchConfig {
    /// How many URLs one batch checks: at least one.
    pub fn max_urls_per_batch(&self) -> (n: usize)
        ensures
            n == at_least_one(self.max_urls_per_batch),
    {
        if self.max_urls_per_batch < 1 {
            1
        } else {
            self.max_urls_per_batch
        }
    }

    /// How many scripts of one URL are fetched: at least one.
    pub fn max_js_files_per_url(&self) -> (n: usize)
        ensures
            n == at_least_one(self.max_js_files_per_url),
    {
        if self.max_js_files_per_url < 1 {
            1
        } else {
            self.max_js_files_per_url
        }
    }

    /// How many map URLs of one URL are requested: at least one.
    pub fn max_map_candidates_per_url(&self) -> (n: usize)
        ensures
            n == at_least_one(self.max_map_candidates_per_url),
    {
        if self.max_map_candidates_per_url < 1 {
            1
        } else {
            self.max_map_candidates_per_url
        }
    }
}

/// Where and how batch reports are written.
#[derive(Debug, Clone)]
pub struct ReportConfig {
    pub output_dir: String,
    pub format: ReportFormat,
}

/// The file format of batch reports.
#[derive(Debug, Clone, Copy, PartialEq, Eq, Structural)]
pub enum ReportFormat {
    Xlsx,
    Json,
    Csv,
}

impl Default for ReportFormat {
    fn default() -> (f: Self)
        ensures
            f == ReportFormat::Xlsx,
    {
        ReportFormat::Xlsx
    }
}

/// Batch summary mail.
#[derive(Debug, Clone)]
pub struct EmailConfig {
    pub enabled: bool,
    pub smtp_host: String,
    pub smtp_port: u16,
    pub smtp_security: String,
    pub username: String,
    pub password: String,
    pub from: String,
    pub to: Vec<String>,
}

} // verus!
