use watcher::cli::actions::{handle_add, handle_clear, handle_delete, handle_import, handle_rename, handle_unmark, ImportInput};
use watcher::cli::args::{
    AddArgs, AddTarget, ClearArgs, ClearTarget, DeleteArgs, DeleteTarget, ImportArgs, ImportTarget, RenameArgs,
    RenameTarget, UnmarkArgs, UnmarkTarget,
};
use watcher::db::{BaselineImportRow, Database};
use watcher::import::excel::import_excel;
use watcher::db::scans::{plan_ip_scan, ExistingPort, port_change_details};
use watcher::db::snapshot::tally_severities;
use watcher::db::helpers::{compact_port_list, normalize_path};
use watcher::db::lists::map_alert;
use watcher::db::sql::SqlValue;
use watcher::local_time::{configure, configured_timezone, rfc3339_to_local, DEFAULT_OFFSET_SECONDS};
use watcher::monitor::web_enum::{CandidateResult, ScanAction, ServiceScan};
use watcher::monitor::vuln::{defer_vuln_url, next_pending_vuln};
use watcher::monitor::vuln_sourcemap::{check_sourcemap_candidate, SourcemapScanStats};

fn fresh_db() -> Database {
    let path = format!("/tmp/watcher-test-{}.db", uuid::Uuid::new_v4());
    let db = Database::open(&path).unwrap();
    db.migrate().unwrap();
    db
}

#[test]
fn bulk_imports_baseline_assets_and_creates_indexes() {
    let db = fresh_db();
    let summary = db
        .import_baseline_rows(
            &[
                BaselineImportRow {
                    system: "core".to_string(),
                    name: Some("example.com.".to_string()),
                    bind_ip: Some("10.0.0.1".to_string()),
                    ip: Some("10.0.0.1".to_string()),
                    ports: vec![80, 443],
                    url: Some("https://example.com".to_string()),
                },
                BaselineImportRow {
                    system: "core".to_string(),
                    name: Some("example.com".to_string()),
                    bind_ip: None,
                    ip: Some("10.0.0.1".to_string()),
                    ports: vec![80],
                    url: Some("https://example.com".to_string()),
                },
            ],
            "imported",
        )
        .unwrap();

    assert_eq!(summary.systems, 2);
    assert_eq!(summary.names, 2);
    assert_eq!(summary.ips, 2);
    assert_eq!(summary.ports, 3);
    assert_eq!(summary.urls, 2);

    let systems = db.query_systems(Some("core"), 10).unwrap();
    assert_eq!(systems[0][1], "1");
    assert_eq!(systems[0][2], "1");
    assert_eq!(systems[0][3], "2");
    assert_eq!(systems[0][4], "1");
    assert_eq!(systems[0][5], "1");
    assert_eq!(systems[0][6], "1");
    assert_eq!(systems[0][7], "2");
    assert_eq!(systems[0][8], "1");

    let imported = db
        .import_baseline_ports_for_system("core", None, &[8080, 8080], "manual")
        .unwrap();
    assert_eq!(imported, 2);
    assert_eq!(db.query_systems(Some("core"), 10).unwrap()[0][3], "3");

    let link = db.conn().unwrap();
    let index_count: i64 = link
        .connection()
        .query_row(
            "SELECT COUNT(*) FROM sqlite_master WHERE type = 'index' AND name IN (
                'idx_domains_system_baseline_name',
                'idx_ips_system_baseline_ip',
                'idx_ports_system_baseline_port',
                'idx_urls_system_baseline_url',
                'idx_pending_work_take'
            )",
            [],
            |row| row.get(0),
        )
        .unwrap();
    assert_eq!(index_count, 5);
}

#[test]
fn migrate_prunes_closed_non_baseline_ports() {
    let db = fresh_db();
    let system_id = db.upsert_system("core").unwrap();
    let ip_id = db.upsert_ip(&system_id, "10.0.0.1", "imported").unwrap();
    let closed_id = db.upsert_port(&system_id, Some(&ip_id), 8080, "scan").unwrap();
    let link = db.conn().unwrap();
    link.connection()
        .execute("UPDATE ports SET state = 'closed' WHERE id = ?1", [&closed_id])
        .unwrap();
    drop(link);

    db.migrate().unwrap();
    assert!(db.query_ports(Some("8080"), 10).unwrap().is_empty());
}

fn row(id: &str, port: u16, state: &str, baseline: bool) -> ExistingPort {
    ExistingPort { id: id.to_string(), port, state: state.to_string(), is_baseline: baseline }
}

#[test]
fn scan_plan_opens_closes_and_prunes() {
    let existing = vec![
        row("a", 22, "open", false),
        row("b", 80, "unknown", true),
        row("c", 443, "open", true),
        row("d", 8080, "open", false),
    ];
    let plan = plan_ip_scan(&existing, &[80, 3306, 22, 3306], true);
    assert_eq!(
        plan.updates,
        vec![
            ("a".to_string(), true),
            ("b".to_string(), true),
            ("c".to_string(), false),
            ("d".to_string(), false),
        ]
    );
    assert_eq!(plan.inserts, vec![3306]);
    assert_eq!(plan.deletes, vec!["d".to_string()]);
    assert_eq!(plan.opened, vec![80, 3306]);
    assert_eq!(plan.closed, vec![443, 8080]);

    let partial = plan_ip_scan(&existing, &[80], false);
    assert_eq!(partial.updates, vec![("b".to_string(), true)]);
    assert!(partial.deletes.is_empty());
    assert!(partial.closed.is_empty());
}

#[test]
fn recorded_scan_updates_rows_and_summary() {
    let db = fresh_db();
    let system_id = db.upsert_system("core").unwrap();
    let ip_id = db.upsert_ip(&system_id, "10.0.0.1", "imported").unwrap();
    db.upsert_port(&system_id, Some(&ip_id), 8080, "scan").unwrap();
    let batch = db.create_batch().unwrap();
    db.record_ip_scan(&batch.id, &system_id, &ip_id, "10.0.0.1", &[22, 443], 1000, true).unwrap();
    let summaries = db.list_scan_summaries(&batch.id).unwrap();
    assert_eq!(summaries.len(), 1);
    assert_eq!(summaries[0].open_count, 2);
    assert_eq!(summaries[0].probed_ports, 1000);
    assert_eq!(summaries[0].opened_ports.as_deref(), Some("22,443"));
    assert_eq!(db.list_alerts(&batch.id).unwrap().len(), 1);
    assert!(db.query_ports(Some("8080"), 10).unwrap().is_empty());
    assert_eq!(db.list_open_ports().unwrap().len(), 2);
}

#[test]
fn port_change_details_are_json() {
    assert_eq!(port_change_details(&[22, 443]), r#"{"count":2,"ports":[22,443]}"#);
    assert_eq!(port_change_details(&[]), r#"{"count":0,"ports":[]}"#);
    assert_eq!(compact_port_list(&[80, 8080]).as_deref(), Some("80,8080"));
    assert_eq!(compact_port_list(&[]), None);
}

#[test]
fn severities_are_tallied_without_regard_to_case() {
    let rows = vec![
        ("HIGH".to_string(), 2),
        ("medium".to_string(), 1),
        ("high".to_string(), 3),
        ("info".to_string(), 4),
    ];
    let c = tally_severities(&rows).unwrap();
    assert_eq!((c.critical, c.high, c.medium, c.low, c.other), (0, 5, 1, 0, 4));
    assert!(tally_severities(&vec![("low".to_string(), i64::MAX), ("low".to_string(), 1)]).is_none());
}

#[test]
fn dashboard_snapshot_reads_an_empty_database() {
    let db = fresh_db();
    let snap = db.dashboard_snapshot().unwrap();
    assert!(snap.latest_batch.is_none());
    assert_eq!(snap.assets.systems, 0);
    assert_eq!(snap.queue.pending, 0);
    assert!(snap.recent_alerts.is_empty());
}

#[test]
fn timestamps_are_respelled_at_offsets() {
    assert_eq!(rfc3339_to_local("2024-01-02T03:04:05+00:00", 28800), "2024-01-02T11:04:05+08:00");
    assert_eq!(rfc3339_to_local("not a time", 28800), "not a time");
    let text = |s: &str| SqlValue::Text(s.to_string());
    let row = vec![
        text("a1"),
        text("b1"),
        SqlValue::Null,
        SqlValue::Null,
        text("port_change"),
        text("high"),
        text("10.0.0.1"),
        SqlValue::Null,
        SqlValue::Null,
        SqlValue::Null,
        text("2024-01-02T11:04:05+08:00"),
    ];
    let alert = map_alert(&row).unwrap();
    assert_eq!(alert.created_at, "2024-01-02T03:04:05+00:00");
    assert_eq!(alert.severity, "high");
}

#[test]
fn dictionary_paths_get_a_leading_slash() {
    assert_eq!(normalize_path(" admin/login "), "/admin/login");
    assert_eq!(normalize_path("/api"), "/api");
    assert_eq!(normalize_path("   "), "");
}

#[test]
fn actions_print_what_they_did() {
    let db = fresh_db();
    let add = |target: AddTarget, baseline: bool, system: Option<&str>, ip: Option<&str>, value: &str| AddArgs {
        target,
        baseline,
        system: system.map(str::to_string),
        ip: ip.map(str::to_string),
        bind_ip: None,
        value: value.to_string(),
    };
    assert_eq!(handle_add(&db, add(AddTarget::System, false, None, None, "core")).unwrap(), "system added: core");
    assert_eq!(
        handle_add(&db, add(AddTarget::Port, true, Some("core"), Some("10.0.0.1"), "443")).unwrap(),
        "baseline port added: 443"
    );
    assert_eq!(
        handle_add(&db, add(AddTarget::Url, false, Some("core"), None, "https://example.com")).unwrap(),
        "added url: https://example.com"
    );
    assert!(handle_add(&db, add(AddTarget::Port, false, Some("core"), None, "http")).is_err());
    assert!(handle_add(&db, add(AddTarget::Ip, false, Some("core"), None, "  ")).is_err());
    let unmark = UnmarkArgs {
        target: UnmarkTarget::Port,
        system: "core".to_string(),
        ip: Some("10.0.0.1".to_string()),
        value: "443".to_string(),
    };
    assert_eq!(handle_unmark(&db, &unmark).unwrap(), "baseline rows updated: 1");
    let import = ImportArgs {
        target: ImportTarget::Ip,
        baseline: false,
        system: Some("core".to_string()),
        ip: None,
        bind_ip: None,
        file: "ips.txt".to_string(),
    };
    let text = ImportInput::Text("10.0.0.2\n\n 10.0.0.3 \n".to_string());
    assert_eq!(handle_import(&db, &import, text).unwrap(), "imported 2");
    let rename = RenameArgs { target: RenameTarget::System, old_name: "core".to_string(), new_name: "edge".to_string() };
    assert_eq!(handle_rename(&db, &rename).unwrap(), "renamed systems: 1");
    let delete = DeleteArgs {
        target: DeleteTarget::Url,
        baseline: false,
        system: None,
        ip: None,
        value: "https://example.com".to_string(),
    };
    assert_eq!(handle_delete(&db, delete).unwrap(), "deleted url: https://example.com");
    let delete_system = DeleteArgs {
        target: DeleteTarget::System,
        baseline: false,
        system: None,
        ip: None,
        value: "edge".to_string(),
    };
    assert_eq!(handle_delete(&db, delete_system).unwrap(), "deleted systems: 1");
    let clear = ClearArgs { target: ClearTarget::Log, before: None };
    assert!(handle_clear(&db, &clear).unwrap().starts_with("deleted logs: "));
}

#[test]
fn sourcemap_finding_is_persisted_with_an_alert() {
    let db = fresh_db();
    let system_id = db.upsert_system("core").unwrap();
    let batch = db.create_batch().unwrap();
    let mut stats = SourcemapScanStats::default();
    let body = r#"{"version":3,"sources":["a.js"],"mappings":"AAAA"}"#.to_string();
    check_sourcemap_candidate(&db, &batch.id, &system_id, "https://example.com/app.js.map", Some((true, body)), &mut stats)
        .unwrap();
    check_sourcemap_candidate(&db, &batch.id, &system_id, "https://example.com/b.js.map", None, &mut stats).unwrap();
    assert_eq!(stats.map_candidates_checked, 2);
    assert_eq!(stats.findings, 1);
    assert_eq!(db.list_vulnerabilities(&batch.id).unwrap().len(), 1);
    assert_eq!(db.list_alerts(&batch.id).unwrap().len(), 1);
}

#[test]
fn worksheet_without_real_ip_or_port_columns_is_refused() {
    let db = fresh_db();
    let grid = vec![
        vec!["system".to_string(), "url".to_string()],
        vec!["core".to_string(), "https://example.com".to_string()],
    ];
    assert_eq!(import_excel(&db, &grid).unwrap_err().message(), "missing required excel column `real_ip`");
    let no_port = vec![
        vec!["system".to_string(), "real_ip".to_string()],
        vec!["core".to_string(), "10.0.0.1".to_string()],
    ];
    assert_eq!(import_excel(&db, &no_port).unwrap_err().message(), "missing required excel column `port`");
    assert!(db.query_systems(None, 10).unwrap().is_empty());
    assert!(db.list_urls().unwrap().is_empty());
    assert!(db.list_real_ips().unwrap().is_empty());
}

#[test]
fn url_queries_and_exports_spell_rows() {
    let db = fresh_db();
    db.upsert_url_for_system("core", "https://example.com", "manual").unwrap();
    let rows = db.query_urls(None, 10).unwrap();
    assert_eq!(rows, vec![vec!["core".to_string(), "https://example.com".to_string(), "false".to_string()]]);
    let records = db.export_urls().unwrap();
    assert_eq!(records.len(), 2);
    assert_eq!(records[0], vec!["system", "url", "source", "status_code", "value_score", "baseline"]);
    assert_eq!(records[1][0], "core");
    assert_eq!(records[1][1], "https://example.com");
    assert_eq!(records[1][2], "manual");
    assert_eq!(records[1][3], "");
    assert_eq!(records[1][5], "false");
}

#[test]
fn dashboard_severities_count_only_the_latest_batch() {
    let db = fresh_db();
    let first = db.create_batch().unwrap();
    db.add_alert(&first.id, None, "port_change", "critical", "10.0.0.1", None, None, None).unwrap();
    let second = db.create_batch().unwrap();
    db.add_alert(&second.id, None, "port_change", "HIGH", "10.0.0.2", None, None, None).unwrap();
    db.add_alert(&second.id, None, "port_change", "low", "10.0.0.3", None, None, None).unwrap();
    let snap = db.dashboard_snapshot().unwrap();
    assert_eq!(snap.latest_batch.as_ref().unwrap().id, second.id);
    assert_eq!(snap.latest_batch.as_ref().unwrap().alerts, 2);
    assert_eq!(snap.alert_severity.critical, 0);
    assert_eq!(snap.alert_severity.high, 1);
    assert_eq!(snap.alert_severity.low, 1);
    assert_eq!(snap.recent_alerts.len(), 3);
}

#[test]
fn batch_stop_requests_and_log_clearing() {
    let db = fresh_db();
    assert!(db.latest_batch_id().is_err());
    let batch = db.create_batch().unwrap();
    assert_eq!(db.latest_batch_id().unwrap(), batch.id);
    assert!(!db.should_stop_batch(&batch.id).unwrap());
    db.request_batch_stop(Some(&batch.id)).unwrap();
    assert!(db.should_stop_batch(&batch.id).unwrap());
    assert!(db.should_stop_batch("missing").is_err());
    assert_eq!(db.list_batches(10).unwrap().len(), 1);
    db.add_log("info", "watcher", "one", None).unwrap();
    db.add_log("warn", "watcher", "two", None).unwrap();
    assert_eq!(db.clear_logs(None).unwrap(), 2);
    assert_eq!(db.clear_logs(None).unwrap(), 0);
    db.migrate().unwrap();
}

#[test]
fn configured_offsets_are_sign_hours_and_minutes() {
    assert_eq!(configured_timezone(DEFAULT_OFFSET_SECONDS), "+08:00");
    assert_eq!(configured_timezone(-19800), "-05:30");
    assert_eq!(configured_timezone(0), "+00:00");
    assert_eq!(configured_timezone(86340), "+23:59");
}

#[test]
fn service_scan_records_base_and_scored_candidates() {
    let db = fresh_db();
    let system_id = db.upsert_system("core").unwrap();
    let batch = db.create_batch().unwrap();
    let mut scan = ServiceScan::new(
        &batch.id,
        &system_id,
        vec!["http://10.0.0.1:8080/".to_string()],
        vec!["admin".to_string(), "hidden".to_string()],
        0,
    );
    let first = scan.next(&db).unwrap();
    assert_eq!(first, ScanAction::Fetch { url: "http://10.0.0.1:8080/".to_string(), pause_after: false });
    let second = scan
        .resume(&db, Some(CandidateResult { status: 404, body: String::new(), score: 0 }))
        .unwrap();
    assert_eq!(second, ScanAction::Fetch { url: "http://10.0.0.1:8080/admin".to_string(), pause_after: true });
    let third = scan
        .resume(&db, Some(CandidateResult { status: 403, body: String::new(), score: 7 }))
        .unwrap();
    assert_eq!(third, ScanAction::Fetch { url: "http://10.0.0.1:8080/hidden".to_string(), pause_after: true });
    let last = scan
        .resume(&db, Some(CandidateResult { status: 404, body: String::new(), score: 0 }))
        .unwrap();
    assert_eq!(last, ScanAction::Finished);

    let admin = db.query_urls(Some("admin"), 10).unwrap();
    assert_eq!(admin.len(), 1);
    assert_eq!(admin[0][1], "http://10.0.0.1:8080/admin");
    assert!(db.query_urls(Some("hidden"), 10).unwrap().is_empty());
    assert_eq!(db.query_urls(Some("8080"), 10).unwrap().len(), 2);
}

#[test]
fn configured_timezone_follows_last_accepted_setting() {
    let mut offset = DEFAULT_OFFSET_SECONDS;
    assert_eq!(configured_timezone(offset), "+08:00");
    for setting in ["-05:30", "not a zone", "", "+08:00", "bogus"] {
        if let Ok(seconds) = configure(setting) {
            offset = seconds;
        }
    }
    assert_eq!(configured_timezone(offset), "+08:00");
    offset = configure("-05:30").unwrap();
    assert_eq!(configured_timezone(offset), "-05:30");
    assert!(configure("   ").is_err());
    assert_eq!(configure(&configured_timezone(offset)).unwrap(), offset);
}

#[test]
fn database_clone_reports_the_same_path() {
    let path = format!("/tmp/watcher-test-{}.db", uuid::Uuid::new_v4());
    let db = Database::open(&path).unwrap();
    let other = db.clone();
    assert_eq!(db.path(), path);
    assert_eq!(other.path(), path);
}

#[test]
fn service_scan_queues_the_next_candidate_when_stopped() {
    let db = fresh_db();
    let system_id = db.upsert_system("core").unwrap();
    let batch = db.create_batch().unwrap();
    let mut scan = ServiceScan::new(
        &batch.id,
        &system_id,
        vec!["http://10.0.0.2/".to_string()],
        vec!["/login".to_string()],
        0,
    );
    assert!(matches!(scan.next(&db).unwrap(), ScanAction::Fetch { .. }));
    db.request_batch_stop(Some(&batch.id)).unwrap();
    let done = scan
        .resume(&db, Some(CandidateResult { status: 200, body: String::new(), score: 3 }))
        .unwrap();
    assert_eq!(done, ScanAction::Finished);
    let queued = db.take_pending_work("web_enum", 10).unwrap();
    assert_eq!(queued.len(), 1);
    assert_eq!(queued[0].target, "http://10.0.0.2/login");
    assert_eq!(queued[0].system_id, system_id);
}

#[test]
fn configure_accepts_and_refuses_documented_spellings() {
    assert_eq!(configured_timezone(configure("UTC+8").unwrap()), "+08:00");
    assert_eq!(configured_timezone(configure("-0530").unwrap()), "-05:30");
    assert_eq!(configured_timezone(configure("Z").unwrap()), "+00:00");
    let mut offset = configure("+08:00").unwrap();
    for refused in ["", "+24:00", "bogus"] {
        assert!(configure(refused).is_err());
        if let Ok(seconds) = configure(refused) {
            offset = seconds;
        }
    }
    assert_eq!(configured_timezone(offset), "+08:00");
}

#[test]
fn vuln_replay_and_deferral_follow_the_stop_flag() {
    let db = fresh_db();
    let system_id = db.upsert_system("core").unwrap();
    let batch = db.create_batch().unwrap();
    db.add_pending_work(&batch.id, &system_id, "vuln_scan", "http://10.0.0.3/app.js", 5).unwrap();
    assert_eq!(defer_vuln_url(&db, &batch.id, &system_id, "http://10.0.0.3/x.js"), None);
    let item = next_pending_vuln(&db, &batch.id).unwrap().unwrap();
    assert_eq!(item.target, "http://10.0.0.3/app.js");
    assert!(next_pending_vuln(&db, &batch.id).unwrap().is_none());
    db.request_batch_stop(Some(&batch.id)).unwrap();
    assert_eq!(defer_vuln_url(&db, &batch.id, &system_id, "http://10.0.0.3/y.js"), Some(true));
    assert!(next_pending_vuln(&db, &batch.id).unwrap().is_none());
    let queued = db.take_pending_work("vuln_scan", 10).unwrap();
    assert_eq!(queued.len(), 1);
    assert_eq!(queued[0].target, "http://10.0.0.3/y.js");
}
