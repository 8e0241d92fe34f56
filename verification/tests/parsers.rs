use watcher::import::excel::{parse_port, parse_ports, rows_from_sheet, header_indexes, cell};
use watcher::monitor::detailed_fingerprint::parse_nmap_xml;
use watcher::monitor::progress::{scan_progress_interval, should_log_scan_progress};
use watcher::monitor::vuln_sourcemap::{looks_like_sourcemap, source_mapping_url, is_sourcemap_input_url, conventional_sourcemap_url, collect_sourcemap_candidates, SourcemapInput, sourcemap_input_kind};
use watcher::monitor::web_enum::{value_score, host_base_url, extract_interesting_paths};

#[test]
fn parses_multiple_ports() {
    assert_eq!(parse_ports("80,443/8080").unwrap(), vec![80, 443, 8080]);
}

#[test]
fn parses_excel_integer_like_ports() {
    assert_eq!(parse_ports("80.0;443").unwrap(), vec![80, 443]);
}

#[test]
fn excel_ports_reject_fractions_and_out_of_range() {
    assert_eq!(parse_port("443.00").unwrap(), 443);
    assert_eq!(parse_port("-0").unwrap(), 0);
    assert_eq!(parse_port(".0").unwrap(), 0);
    assert_eq!(parse_port("80.5").unwrap_err().message(), "invalid port `80.5`");
    assert_eq!(parse_port("70000").unwrap_err().message(), "invalid port `70000`");
    assert_eq!(parse_port("-5").unwrap_err().message(), "invalid port `-5`");
    assert_eq!(parse_ports("80, x").unwrap_err().message(), "invalid port `x`");
    assert!(parse_ports(" ; , ").unwrap().is_empty());
}

#[test]
fn worksheet_rows_follow_the_header() {
    let grid = vec![
        vec!["ID".to_string(), " System ".to_string(), "servername".to_string(), "real_ip".to_string(), "port".to_string()],
        vec!["1".to_string(), "core".to_string(), "example.com".to_string(), "10.0.0.1".to_string(), "80.0;443".to_string()],
        vec!["2".to_string(), "".to_string(), "skipped.com".to_string(), "".to_string(), "".to_string()],
        vec!["3".to_string(), "edge".to_string(), "".to_string(), "".to_string(), "".to_string()],
    ];
    let keys = header_indexes(&grid[0]);
    assert_eq!(keys[1], "system");
    assert_eq!(cell(&grid[1], &keys, "port"), "80.0;443");
    assert_eq!(cell(&grid[1], &keys, "url"), "");
    let rows = rows_from_sheet(&grid).unwrap();
    assert_eq!(rows.len(), 2);
    assert_eq!(rows[0].system, "core");
    assert_eq!(rows[0].name.as_deref(), Some("example.com"));
    assert_eq!(rows[0].ports, vec![80, 443]);
    assert_eq!(rows[1].system, "edge");
    assert!(rows[1].ip.is_none());
    let missing = vec![vec!["name".to_string()]];
    assert_eq!(rows_from_sheet(&missing).unwrap_err().message(), "missing required excel column `system`");
    assert_eq!(rows_from_sheet(&Vec::new()).unwrap_err().message(), "worksheet has no header row");
}

#[test]
fn parses_nmap_service_xml() {
    let xml = r#"
<nmaprun>
  <host>
    <ports>
      <port protocol="tcp" portid="22">
        <state state="open" reason="syn-ack"/>
        <service name="ssh" product="OpenSSH" version="8.9p1 Ubuntu" extrainfo="protocol 2.0" conf="10"/>
        <cpe>cpe:/a:openbsd:openssh:8.9p1</cpe>
      </port>
    </ports>
  </host>
</nmaprun>
"#;
    let result = parse_nmap_xml(xml, 22).unwrap();
    assert_eq!(result.service.as_deref(), Some("ssh"));
    let fingerprint = result.fingerprint.unwrap();
    assert!(fingerprint.contains("nmap_state=open"));
    assert!(fingerprint.contains("product=OpenSSH"));
    assert!(fingerprint.contains("cpe=cpe:/a:openbsd:openssh:8.9p1"));
}

#[test]
fn preserves_state_when_service_is_absent() {
    let xml = r#"
<nmaprun>
  <host>
    <ports>
      <port protocol="tcp" portid="81">
        <state state="filtered" reason="no-response"/>
      </port>
    </ports>
  </host>
</nmaprun>
"#;
    let result = parse_nmap_xml(xml, 81).unwrap();
    assert_eq!(result.service, None);
    assert_eq!(result.fingerprint.as_deref(), Some("nmap_state=filtered"));
}

#[test]
fn nmap_summary_lists_attributes_in_order_and_decodes_entities() {
    let xml = r#"<port protocol="udp" portid="53"></port><port protocol="tcp" portid="443"><state state="open"/><service name="https" product="nginx &amp; co" version="" conf="10"/></port>"#;
    let result = parse_nmap_xml(xml, 443).unwrap();
    assert_eq!(
        result.fingerprint.as_deref(),
        Some("nmap_state=open; service=https; product=nginx & co; conf=10")
    );
    assert!(parse_nmap_xml(xml, 53).is_none());
    assert!(parse_nmap_xml("<port protocol=\"tcp\" portid=\"22\">", 22).is_none());
}

#[test]
fn progress_interval_keeps_large_scans_coarse() {
    assert_eq!(scan_progress_interval(0), 1);
    assert_eq!(scan_progress_interval(2), 2);
    assert_eq!(scan_progress_interval(10_000), 100);
    assert_eq!(scan_progress_interval(100_000), 1_000);
}

#[test]
fn progress_logs_on_interval_and_completion() {
    assert!(!should_log_scan_progress(999, 100_000, 1_000));
    assert!(should_log_scan_progress(1_000, 100_000, 1_000));
    assert!(should_log_scan_progress(100_000, 100_000, 1_000));
}

#[test]
fn extracts_source_mapping_marker() {
    assert_eq!(
        source_mapping_url("console.log(1);\n//# sourceMappingURL=app.js.map"),
        Some("app.js.map".to_string())
    );
}

#[test]
fn source_mapping_marker_accepts_at_sign_and_spaces() {
    assert_eq!(source_mapping_url("x //@   sourceMappingURL=/m.map tail"), Some("/m.map".to_string()));
    assert_eq!(source_mapping_url("//# sourceMappingURL= "), None);
    assert_eq!(source_mapping_url("no marker"), None);
}

#[test]
fn detects_sourcemap_shape() {
    assert!(looks_like_sourcemap(r#"{"version":3,"sources":["a.js"],"mappings":"AAAA"}"#));
}

#[test]
fn rejects_bodies_without_sourcemap_keys() {
    assert!(!looks_like_sourcemap(r#"{"version":3,"mappings":"AAAA"}"#));
    assert!(looks_like_sourcemap(r#"{"version":3,"sources":[],"sourcesContent":[]}"#));
}

#[test]
fn identifies_sourcemap_input_urls() {
    assert!(is_sourcemap_input_url("https://example.com/app.js"));
    assert!(is_sourcemap_input_url("https://example.com/app.js?v=1"));
    assert!(is_sourcemap_input_url("https://example.com/app.js.map"));
    assert!(!is_sourcemap_input_url("https://example.com/"));
    assert!(!is_sourcemap_input_url("not a url"));
}

#[test]
fn infers_conventional_sourcemap_url_without_query_string() {
    assert_eq!(
        conventional_sourcemap_url("https://example.com/assets/app.js?v=42").as_deref(),
        Some("https://example.com/assets/app.js.map")
    );
}

#[test]
fn collects_candidates_from_marker_and_convention() {
    let c = collect_sourcemap_candidates(
        "https://example.com/assets/app.js?v=42",
        20,
        Some("console.log(1);\n//# sourceMappingURL=app.js.map".to_string()),
    )
    .unwrap();
    assert_eq!(c.candidates, vec!["https://example.com/assets/app.js.map".to_string()]);
    assert_eq!((c.script_urls_seen, c.script_urls_checked), (1, 1));
    let c = collect_sourcemap_candidates("https://example.com/x.js.map", 20, None).unwrap();
    assert_eq!(c.candidates, vec!["https://example.com/x.js.map".to_string()]);
    let c = collect_sourcemap_candidates("https://example.com/app.js", 20, None).unwrap();
    assert!(c.candidates.is_empty());
    assert_eq!(sourcemap_input_kind("https://example.com/").unwrap(), SourcemapInput::Other);
    assert_eq!(collect_sourcemap_candidates("not a url", 20, None).unwrap_err().message(), "invalid url");
}

#[test]
fn filters_fake_gateway_200() {
    let markers = vec!["接口不存在".to_string(), "code=404".to_string()];
    assert_eq!(value_score(200, "xxx接口不存在，code=404", &markers), 0);
    assert_eq!(value_score(403, "forbidden", &markers), 80);
}

#[test]
fn scores_follow_the_status() {
    let markers: Vec<String> = Vec::new();
    assert_eq!(value_score(200, "ok", &markers), 50);
    assert_eq!(value_score(401, "", &markers), 80);
    assert_eq!(value_score(302, "", &markers), 30);
    assert_eq!(value_score(204, "", &markers), 20);
    assert_eq!(value_score(500, "", &markers), 0);
}

#[test]
fn builds_host_base_urls_with_default_port_elision() {
    assert_eq!(host_base_url("http", "example.com", 80).unwrap(), "http://example.com/");
    assert_eq!(host_base_url("https", "example.com", 8443).unwrap(), "https://example.com:8443/");
}

#[test]
fn extracts_links_worth_following() {
    let body = r#"<script SRC = "/static/app.js"></script><a href='#top'>x</a><a href="javascript:void(0)">y</a> "api/list.json" 'mailto:a@b.c' "/"#;
    let links = extract_interesting_paths(body, "http://example.com/dir/page");
    assert_eq!(
        links,
        vec![
            "http://example.com/dir/api/list.json".to_string(),
            "http://example.com/static/app.js".to_string(),
        ]
    );
}
