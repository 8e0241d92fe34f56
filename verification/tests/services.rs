use watcher::config::defaults::{expand_tilde, expand_tilde_with_home};
use watcher::config::{AppConfig, ScanPortsConfig, PocSwitchConfig, DetailedFingerprintConfig};
use watcher::daemon::{parse_pid, looks_like_watcher_cmdline, status, DaemonStatus, stop_step, StopStep, ensure_not_running, pid_file_content, should_background};
use watcher::cli::args::{Commands, DaemonCommands};
use watcher::dashboard::{severity_tone, status_tone, stage_label, short_id, truncate, Tone, stage_progress};
use watcher::models::DashboardStage;
use watcher::notify::email::{smtp_mode, SmtpMode, summary_subject};
use watcher::models::BatchStatus;
use watcher::monitor::fingerprint::{classify_banner, preferred_schemes, web_fingerprint, banner_fingerprint};
use watcher::monitor::ports::shuffled_ports;
use watcher::monitor::http::BodyPrefix;
use watcher::monitor::vuln::{vuln_scan_progress_interval, should_log_vuln_scan_progress};
use watcher::log_fields::{LogVisitor, json_string_of};
use watcher::local_time::{parse_timezone, format_offset};

#[test]
fn expands_tilde_prefix() {
    let expanded = expand_tilde("~/watcher.yml");
    assert!(expanded.ends_with("watcher.yml"));
    assert!(!expanded.starts_with("~/"));
}

#[test]
fn tilde_expansion_uses_the_given_home() {
    assert_eq!(expand_tilde_with_home("~/a/b.yml", Some("/home/u")), "/home/u/a/b.yml");
    assert_eq!(expand_tilde_with_home("~", Some("/home/u")), "/home/u");
    assert_eq!(expand_tilde_with_home("~", None), "~");
    assert_eq!(expand_tilde_with_home("/etc/x", Some("/home/u")), "/etc/x");
    assert_eq!(expand_tilde_with_home("~user/x", Some("/home/u")), "~user/x");
}

#[test]
fn scan_ports_are_sorted_and_distinct() {
    assert_eq!(ScanPortsConfig::List(vec![443, 80, 443, 22]).expand().unwrap(), vec![22, 80, 443]);
    assert_eq!(ScanPortsConfig::Preset(" FULL ".to_string()).expand().unwrap().len(), 65535);
    assert_eq!(
        ScanPortsConfig::Preset("Top".to_string()).expand().unwrap_err().message(),
        "unsupported scan_ports preset `top`; use a port list or `full`/`all`"
    );
    assert_eq!(ScanPortsConfig::List(vec![]).expand().unwrap_err().message(), "scan_ports must not be empty");
}

#[test]
fn default_configuration_sits_beside_its_file() {
    let config = AppConfig::default_with_path("/etc/watcher/watcher.yml").unwrap();
    assert_eq!(config.database.path, "/etc/watcher/watcher.db");
    assert_eq!(config.report.output_dir, "/etc/watcher/reports");
    assert_eq!(config.daemon_pid_path(), "/etc/watcher/watcher.pid");
    assert_eq!(config.scan_ports().unwrap().len(), 29);
    assert_eq!(config.http_concurrency(), 8);
    assert_eq!(config.interval(), 360 * 60);
    assert_eq!(config.connect_timeout(), 2000);
    assert_eq!(AppConfig::default_with_path("/").unwrap_err().message(), "config path has no parent");
    let poc = PocSwitchConfig { enabled: true, max_urls_per_batch: 0, max_js_files_per_url: 3, max_map_candidates_per_url: 0 };
    assert_eq!((poc.max_urls_per_batch(), poc.max_js_files_per_url(), poc.max_map_candidates_per_url()), (1, 3, 1));
    let detailed = DetailedFingerprintConfig { enabled: true, nmap_path: "nmap".to_string(), timeout_ms: 10, concurrency: 99 };
    assert_eq!((detailed.timeout(), detailed.concurrency()), (1000, 8));
}

#[test]
fn pid_files_and_daemon_status() {
    assert_eq!(parse_pid(" 4242\n", "/run/w.pid").unwrap(), 4242);
    assert_eq!(parse_pid("x", "/run/w.pid").unwrap_err().message(), "invalid pid file /run/w.pid");
    assert_eq!(pid_file_content(7), "7\n");
    assert_eq!(parse_pid(&pid_file_content(4294967295), "/run/w.pid").unwrap(), 4294967295);
    assert!(looks_like_watcher_cmdline("/usr/bin/watcher\0daemon\0run\0"));
    assert!(!looks_like_watcher_cmdline("/usr/bin/sleep\0100"));
    assert!(matches!(status(None, false, None), DaemonStatus::NotRunning));
    assert!(matches!(status(Some(5), false, None), DaemonStatus::Stale { pid: 5, .. }));
    assert!(matches!(status(Some(5), true, Some("bash")), DaemonStatus::Stale { pid: 5, .. }));
    assert!(matches!(status(Some(5), true, None), DaemonStatus::Running { pid: 5 }));
    assert_eq!(
        ensure_not_running(&DaemonStatus::Running { pid: 9 }).unwrap_err().message(),
        "watcher daemon is already running, pid=9"
    );
    assert_eq!(stop_step(0, false), StopStep::Gone);
    assert_eq!(stop_step(0, true), StopStep::Wait);
    assert_eq!(stop_step(39, true), StopStep::GiveUp);
    let run = Commands::Daemon(DaemonCommands::Run { once: false, foreground: false });
    assert!(should_background(&run, false));
    assert!(!should_background(&run, true));
    assert!(!should_background(&Commands::Init, false));
}

#[test]
fn render_maps_importance_levels_to_distinct_colors() {
    assert_eq!(severity_tone("critical"), Tone::Red);
    assert_eq!(severity_tone("high"), Tone::LightRed);
    assert_eq!(severity_tone("medium"), Tone::Yellow);
    assert_eq!(severity_tone("low"), Tone::Green);
}

#[test]
fn dashboard_maps_importance_levels_to_distinct_colors() {
    assert_eq!(severity_tone("critical"), Tone::Red);
    assert_eq!(severity_tone("high"), Tone::LightRed);
    assert_eq!(severity_tone("medium"), Tone::Yellow);
    assert_eq!(severity_tone("low"), Tone::Green);
}

#[test]
fn dashboard_text_helpers() {
    assert_eq!(severity_tone("HIGH"), Tone::LightRed);
    assert_eq!(status_tone("Interrupted"), Tone::Yellow);
    assert_eq!(stage_label("port_scan"), "端口扫描");
    assert_eq!(stage_label("other"), "自定义阶段");
    assert_eq!(short_id("0123456789"), "01234567");
    assert_eq!(truncate("abcdef", 3), "abc…");
    assert_eq!(truncate("abc", 3), "abc");
    let stage = |status: &str| DashboardStage {
        stage: "dns".to_string(),
        status: status.to_string(),
        started_at: String::new(),
        ended_at: None,
        detail: None,
    };
    let p = stage_progress(&vec![stage("completed"), stage("running"), stage("warning")]);
    assert_eq!((p.completed, p.total, p.percent), (2, 3, 66));
    assert_eq!(stage_progress(&Vec::new()).percent, 0);
}

#[test]
fn builds_auto_smtp_transport_for_qq_ports() {
    assert_eq!(smtp_mode(465, "auto").unwrap(), SmtpMode::Tls);
    assert_eq!(smtp_mode(587, "auto").unwrap(), SmtpMode::StartTls);
    assert_eq!(smtp_mode(587, "starttls").unwrap(), SmtpMode::StartTls);
}

#[test]
fn rejects_unknown_smtp_security() {
    assert!(smtp_mode(587, "magic").is_err());
}

#[test]
fn summary_subject_names_the_counts() {
    let status = BatchStatus {
        batch_id: "b1".to_string(),
        status: "completed".to_string(),
        started_at: "t0".to_string(),
        ended_at: None,
        alerts: 3,
        vulnerabilities: 0,
    };
    assert_eq!(summary_subject(&status), "[watcher] batch b1 completed alerts=3 vulns=0");
}

#[test]
fn fingerprints_from_answers_and_banners() {
    assert_eq!(classify_banner("SSH-2.0-OpenSSH_8.9"), "ssh");
    assert_eq!(classify_banner("220 mail ESMTP"), "smtp");
    assert_eq!(classify_banner("hello"), "tcp");
    assert_eq!(preferred_schemes(8443), vec!["https", "http"]);
    assert_eq!(preferred_schemes(80), vec!["http", "https"]);
    let web = web_fingerprint("https", 200, "nginx");
    assert_eq!(web.fingerprint.as_deref(), Some("http_status=200; server=nginx"));
    let bare = banner_fingerprint("  \r\n");
    assert_eq!(bare.service.as_deref(), Some("tcp"));
    assert!(bare.fingerprint.is_none());
}

#[test]
fn shuffled_ports_preserves_port_set() {
    let ports = vec![1, 2, 3, 4, 5];
    let mut shuffled = shuffled_ports(&ports);
    shuffled.sort_unstable();
    assert_eq!(shuffled, ports);
}

#[test]
fn body_prefix_keeps_only_the_limit() {
    let mut p = BodyPrefix::new(4);
    assert!(!p.accept(b"ab"));
    assert!(p.accept(b"cdef"));
    assert_eq!(p.bytes().as_slice(), b"abcd");
    let z = BodyPrefix::new(0);
    assert!(z.is_full());
}

#[test]
fn reads_only_the_requested_response_prefix() {
    let mut p = BodyPrefix::new(4);
    p.accept(b"abcdef");
    assert_eq!(String::from_utf8_lossy(p.bytes()), "abcd");
}

#[test]
fn accepts_zero_length_prefix_without_reading_the_body() {
    let p = BodyPrefix::new(0);
    assert!(p.is_full());
    assert_eq!(String::from_utf8_lossy(p.bytes()), "");
}

#[test]
fn vuln_progress_pacing() {
    assert_eq!(vuln_scan_progress_interval(0), 1);
    assert_eq!(vuln_scan_progress_interval(15), 15);
    assert_eq!(vuln_scan_progress_interval(500), 20);
    assert_eq!(vuln_scan_progress_interval(5000), 50);
    assert!(should_log_vuln_scan_progress(7, 7, 20));
    assert!(!should_log_vuln_scan_progress(7, 9, 20));
}

#[test]
fn log_fields_are_stored_as_sorted_json() {
    let mut v = LogVisitor::new();
    v.record_value("message", "hello".to_string());
    v.record_value("port", "22".to_string());
    v.record_value("ip", "10.0.0.1".to_string());
    v.record_value("port", "23".to_string());
    let (message, fields) = v.finish("event", Some("src/x.rs"), Some(7));
    assert_eq!(message, "hello");
    assert_eq!(fields, r#"{"file":"src/x.rs","ip":"10.0.0.1","line":"7","port":"23"}"#);
    assert_eq!(json_string_of("a\"b\\\n\u{1}"), "\"a\\\"b\\\\\\n\\u0001\"");
}

#[test]
fn display_offsets_round_trip() {
    assert_eq!(parse_timezone("+08:00").unwrap(), 28800);
    assert_eq!(format_offset(-19800), "-05:30");
}
