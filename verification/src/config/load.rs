//! The configuration a fresh installation gets, the normalization a loaded
//! one goes through, and what the running system reads from it.

use vstd::prelude::*;

use crate::db::sql::opt_view;
use crate::error::{self, WatcherError};
use crate::local_time;
use crate::search::views;
use crate::paths::{path_parent, path_joined, parent_of, join_path};
use crate::port_set::{strictly_increasing, same_ports};

use super::defaults::{
    default_scan_ip_concurrency, default_scan_port_concurrency_per_ip, default_smtp_security,
    expand_tilde,
};
use super::types::{expansion_outcome, 
    AppConfig, DatabaseConfig, DisplayConfig, EmailConfig, FingerprintConfig, PocConfig,
    ProbeConfig, ReportConfig, ReportFormat, ScanPortsConfig, SchedulerConfig, WebConfig,
};

verus! {

/// The ports a fresh configuration scans.
pub open spec fn default_scan_list() -> Seq<u16> {
    seq![
        21u16, 22, 25, 53, 80, 110, 143, 443, 445, 465, 587, 993, 995, 1433, 1521, 3306, 3389,
        5432, 6379, 7001, 8000, 8080, 8081, 8443, 9000, 9200, 9300, 10000, 27017,
    ]
}

/// The pid file sits beside the configuration file.
pub open spec fn pid_path_for(config_path: Seq<char>) -> Seq<char> {
    match path_parent(config_path) {
        Some(p) => path_joined(p, "watcher.pid"@),
        None => "watcher.pid"@,
    }
}

/// What [`AppConfig::default_with_path`] gives for a configuration file at
/// `config_path`: the defaults, with the database and the reports beside
/// the file; an error when the path has no parent.
pub open spec fn default_config_outcome(config_path: Seq<char>, r: Result<AppConfig, WatcherError>) -> bool {
    match path_parent(config_path) {
        Some(base) => r matches Ok(c) && c.config_path@ == config_path
            && c.database.path@ == path_joined(base, "watcher.db"@)
            && c.report.output_dir@ == path_joined(base, "reports"@)
            && c.scheduler.interval_minutes == 360
            && c.probe.connect_timeout_ms == 2000
            && c.probe.http_timeout_ms == 8000
            && c.probe.per_target_delay_ms == 1200
            && c.probe.concurrency == 16
            && c.probe.scan_ip_concurrency == 4
            && c.probe.scan_port_concurrency_per_ip == 4
            && c.probe.dns_servers@.len() == 0
            && (c.probe.scan_ports matches ScanPortsConfig::List(l) && l@ == default_scan_list())
            && c.web.max_paths_per_service == 200
            && c.web.max_js_paths_per_service == 80
            && views(c.web.negative_body_markers@) == seq![
                "接口不存在"@,
                "code=404"@,
                "\"code\":404"@,
                "'code':404"@,
            ]
            && c.display.timezone@ == crate::local_time::DEFAULT_TIMEZONE@
            && !c.fingerprint.detailed.enabled
            && c.fingerprint.detailed.nmap_path@ == "nmap"@
            && c.fingerprint.detailed.timeout_ms == 30_000
            && c.fingerprint.detailed.concurrency == 2
            && c.pocs.webpack_sourcemap_disclosure.enabled
            && c.pocs.webpack_sourcemap_disclosure.max_urls_per_batch == 1000
            && c.pocs.webpack_sourcemap_disclosure.max_js_files_per_url == 20
            && c.pocs.webpack_sourcemap_disclosure.max_map_candidates_per_url == 20
            && c.report.format == ReportFormat::Xlsx
            && !c.email.enabled
            && c.email.smtp_host@ == "smtp.example.com"@
            && c.email.smtp_port == 587
            && c.email.smtp_security@ == "auto"@
            && c.email.username@.len() == 0
            && c.email.password@.len() == 0
            && c.email.from@ == "watcher@example.com"@
            && c.email.to@.len() == 0,
        None => r matches Err(e) && e.is_invalid_with("config path has no parent"@),
    }
}

impl AppConfig {
    /// Seconds between two batches: the configured minutes, at least one.
    pub fn interval(&self) -> (secs: u64)
        requires
            self.scheduler.interval_minutes * 60 <= u64::MAX,
        ensures
            secs == (if self.scheduler.interval_minutes < 1 {
                1
            } else {
                self.scheduler.interval_minutes
            }) * 60,
    {
        let minutes = if self.scheduler.interval_minutes < 1 {
            1
        } else {
            self.scheduler.interval_minutes
        };
        minutes * 60
    }

    /// Milliseconds a port connection may take: at least 100.
    pub fn connect_timeout(&self) -> (ms: u64)
        ensures
            ms == if self.probe.connect_timeout_ms < 100 {
                100
            } else {
                self.probe.connect_timeout_ms
            },
    {
        if self.probe.connect_timeout_ms < 100 {
            100
        } else {
            self.probe.connect_timeout_ms
        }
    }

    /// How many IPs are scanned at once: at least one.
    pub fn scan_ip_concurrency(&self) -> (n: usize)
        ensures
            n == super::types::at_least_one(self.probe.scan_ip_concurrency),
    {
        if self.probe.scan_ip_concurrency < 1 {
            1
        } else {
            self.probe.scan_ip_concurrency
        }
    }

    /// How many ports of one IP are probed at once: at least one.
    pub fn scan_port_concurrency_per_ip(&self) -> (n: usize)
        ensures
            n == super::types::at_least_one(self.probe.scan_port_concurrency_per_ip),
    {
        if self.probe.scan_port_concurrency_per_ip < 1 {
            1
        } else {
            self.probe.scan_port_concurrency_per_ip
        }
    }

    /// Milliseconds an HTTP request may take: at least 500.
    pub fn http_timeout(&self) -> (ms: u64)
        ensures
            ms == if self.probe.http_timeout_ms < 500 {
                500
            } else {
                self.probe.http_timeout_ms
            },
    {
        if self.probe.http_timeout_ms < 500 {
            500
        } else {
            self.probe.http_timeout_ms
        }
    }

    /// How many HTTP requests go at once: between 1 and 8.
    pub fn http_concurrency(&self) -> (n: usize)
        ensures
            n == if self.probe.concurrency < 1 {
                1
            } else if self.probe.concurrency > 8 {
                8
            } else {
                self.probe.concurrency
            },
    {
        if self.probe.concurrency < 1 {
            1
        } else if self.probe.concurrency > 8 {
            8
        } else {
            self.probe.concurrency
        }
    }

    /// Milliseconds to wait between two requests to one target.
    pub fn per_target_delay(&self) -> (ms: u64)
        ensures
            ms == self.probe.per_target_delay_ms,
    {
        self.probe.per_target_delay_ms
    }

    /// The daemon's pid file, beside the configuration file.
    pub fn daemon_pid_path(&self) -> (p: String)
        ensures
            p@ == pid_path_for(self.config_path@),
    {
        match parent_of(self.config_path.as_str()) {
            Some(parent) => join_path(parent.as_str(), "watcher.pid"),
            None => String::from_str("watcher.pid"),
        }
    }

    /// The ports to scan, distinct and in increasing order.
    pub fn scan_ports(&self) -> (r: Result<Vec<u16>, WatcherError>)
        ensures
            expansion_outcome(self.probe.scan_ports, r),
            r matches Ok(v) ==> strictly_increasing(v@) && v@.len() > 0,
    {
        let r = self.probe.scan_ports.expand();
        proof {
            match &r {
                Ok(v) => {
                    match &self.probe.scan_ports {
                        ScanPortsConfig::List(l) => {
                            assert(l@.contains(l@[0]));
                        },
                        ScanPortsConfig::Preset(_) => {
                            assert(v@[0] == 1);
                        },
                    }
                },
                Err(_) => {},
            }
        }
        r
    }

    /// The configuration a fresh installation gets, with its database and
    /// reports beside the configuration file at `config_path`.
    pub fn default_with_path(config_path: &str) -> (r: Result<Self, WatcherError>)
        ensures
            default_config_outcome(config_path@, r),
    {
        let base = match parent_of(config_path) {
            Some(b) => b,
            None => {
                return Err(error::invalid("config path has no parent"));
            },
        };
        let ports: Vec<u16> = vec![
            21, 22, 25, 53, 80, 110, 143, 443, 445, 465, 587, 993, 995, 1433, 1521, 3306, 3389,
            5432, 6379, 7001, 8000, 8080, 8081, 8443, 9000, 9200, 9300, 10000, 27017,
        ];
        assert(ports@ =~= default_scan_list());
        let markers: Vec<String> = vec![
            String::from_str("接口不存在"),
            String::from_str("code=404"),
            String::from_str("\"code\":404"),
            String::from_str("'code':404"),
        ];
        assert(views(markers@) =~= seq!["接口不存在"@, "code=404"@, "\"code\":404"@, "'code':404"@]);
        Ok(
            AppConfig {
                config_path: String::from_str(config_path),
                database: DatabaseConfig { path: join_path(base.as_str(), "watcher.db") },
                display: DisplayConfig::default(),
                scheduler: SchedulerConfig { interval_minutes: 360 },
                probe: ProbeConfig {
                    connect_timeout_ms: 2000,
                    http_timeout_ms: 8000,
                    per_target_delay_ms: 1200,
                    concurrency: 16,
                    scan_ip_concurrency: default_scan_ip_concurrency(),
                    scan_port_concurrency_per_ip: default_scan_port_concurrency_per_ip(),
                    dns_servers: Vec::new(),
                    scan_ports: ScanPortsConfig::List(ports),
                },
                fingerprint: FingerprintConfig::default(),
                web: WebConfig {
                    max_paths_per_service: 200,
                    max_js_paths_per_service: 80,
                    negative_body_markers: markers,
                },
                pocs: PocConfig::default(),
                report: ReportConfig {
                    output_dir: join_path(base.as_str(), "reports"),
                    format: ReportFormat::Xlsx,
                },
                email: EmailConfig {
                    enabled: false,
                    smtp_host: String::from_str("smtp.example.com"),
                    smtp_port: 587,
                    smtp_security: default_smtp_security(),
                    username: String::new(),
                    password: String::new(),
                    from: String::from_str("watcher@example.com"),
                    to: Vec::new(),
                },
            },
        )
    }

    /// The example configuration that `--example` prints: the defaults for
    /// a configuration file at `~/.config/watcher/watcher.yml`.
    pub fn example() -> (r: Result<Self, WatcherError>)
        ensures
            default_config_outcome("~/.config/watcher/watcher.yml"@, r),
    {
        Self::default_with_path("~/.config/watcher/watcher.yml")
    }

    /// Finishes a configuration read from `config_path`: records where it
    /// came from, expands `~` in the database and report paths, and checks
    /// the display timezone.
    pub fn finish_loaded(self, config_path: &str) -> (r: Result<Self, WatcherError>)
        ensures
            r matches Ok(c) ==> c.config_path@ == config_path@ && c.display.timezone@
                == self.display.timezone@ && local_time::spec_timezone(self.display.timezone@) is Some,
            r matches Err(e) ==> e is Invalid,
    {
        let mut config = self;
        config.config_path = String::from_str(config_path);
        config.database.path = expand_tilde(config.database.path.as_str());
        config.report.output_dir = expand_tilde(config.report.output_dir.as_str());
        local_time::parse_timezone(config.display.timezone.as_str())?;
        Ok(config)
    }
}

} // verus!
