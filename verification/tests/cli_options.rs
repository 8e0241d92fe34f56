use watcher::cli::args::{EntityAddArgs, TargetKind, AddTarget, LogLevelArg};
use watcher::cli::assets::{ensure_asset_bind_options, ensure_unused_asset_options, required_system, parse_ports};
use watcher::cli::common::{import_values, parse_port, row_lines};
use watcher::cli::entities::{ensure_entity_add_options, ensure_entity_import_options};
use watcher::cli::args::EntityImportArgs;

fn add_args(value: &str, ip: Option<&str>, bind_ip: Option<&str>) -> EntityAddArgs {
    EntityAddArgs {
        system: "core".to_string(),
        ip: ip.map(str::to_string),
        bind_ip: bind_ip.map(str::to_string),
        value: value.to_string(),
    }
}

#[test]
fn assets_rejects_options_that_do_not_apply_to_asset_type() {
    let error = ensure_asset_bind_options(TargetKind::Url, Some("10.0.0.1"), None).unwrap_err();
    assert!(error.message().contains("only supported by --type port"));
}

#[test]
fn entities_rejects_options_that_do_not_apply_to_asset_type() {
    let error = ensure_entity_add_options(
        &add_args("https://example.com", Some("10.0.0.1"), None),
        false,
        false,
    )
    .unwrap_err();
    assert!(error.message().contains("only supported by port add"));
}

#[test]
fn bind_ip_is_only_for_names() {
    let error = ensure_asset_bind_options(TargetKind::Port, Some("10.0.0.1"), Some("10.0.0.2")).unwrap_err();
    assert_eq!(error.message(), "--bind-ip is only supported by --type name");
    assert!(ensure_asset_bind_options(TargetKind::Name, None, Some("10.0.0.2")).is_ok());
    assert!(ensure_asset_bind_options(TargetKind::Port, Some("10.0.0.1"), None).is_ok());
}

#[test]
fn entity_import_options_follow_the_noun() {
    let args = EntityImportArgs {
        system: "core".to_string(),
        ip: None,
        bind_ip: Some("10.0.0.1".to_string()),
        file: "names.txt".to_string(),
    };
    assert_eq!(
        ensure_entity_import_options(&args, false, false).unwrap_err().message(),
        "--bind-ip is only supported by name import"
    );
    assert!(ensure_entity_import_options(&args, false, true).is_ok());
}

#[test]
fn system_is_required_for_asset_commands() {
    assert_eq!(required_system(Some("core"), TargetKind::Url).unwrap(), "core");
    assert_eq!(
        required_system(None, TargetKind::Port).unwrap_err().message(),
        "--system is required for --type port"
    );
}

#[test]
fn unused_options_are_reported_in_order() {
    let err = ensure_unused_asset_options(true, Some("core"), &None, &None, "system add").unwrap_err();
    assert_eq!(err.message(), "--baseline is not used by system add");
    let err = ensure_unused_asset_options(false, None, &Some("1.1.1.1".to_string()), &None, "system add").unwrap_err();
    assert_eq!(err.message(), "--ip is not used by system add");
    assert!(ensure_unused_asset_options(false, None, &None, &None, "system add").is_ok());
}

#[test]
fn command_line_ports_are_u16_literals() {
    assert_eq!(parse_port("443").unwrap(), 443);
    assert_eq!(parse_port("+80").unwrap(), 80);
    assert_eq!(parse_port("65535").unwrap(), 65535);
    assert_eq!(parse_port("65536").unwrap_err().message(), "invalid port 65536");
    assert_eq!(parse_port("x").unwrap_err().message(), "invalid port x");
    assert_eq!(parse_ports(&vec!["80".to_string(), "443".to_string()]).unwrap(), vec![80, 443]);
    assert!(parse_ports(&vec!["80".to_string(), "http".to_string()]).is_err());
}

#[test]
fn import_files_give_trimmed_nonblank_lines() {
    let values = import_values("  a.example.com \r\n\n  \nb.example.com");
    assert_eq!(values, vec!["a.example.com".to_string(), "b.example.com".to_string()]);
    assert!(import_values("").is_empty());
}

#[test]
fn rows_print_tab_separated() {
    let rows = vec![vec!["a".to_string(), "b".to_string()], vec!["c".to_string()]];
    assert_eq!(row_lines(&rows), vec!["a\tb".to_string(), "c".to_string()]);
}

#[test]
fn nouns_and_levels_have_their_spellings() {
    assert_eq!(TargetKind::Excel.as_str(), "excel");
    assert!(TargetKind::Name.is_asset());
    assert!(!TargetKind::System.is_asset());
    assert_eq!(TargetKind::from(AddTarget::Port), TargetKind::Port);
    assert_eq!(LogLevelArg::Warn.as_db_level(), "WARN");
}
