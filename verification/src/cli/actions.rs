//! The action-first commands: what each does to the database and the lines
//! it prints. Reading and writing files is left to the caller, which hands
//! in what a file held and writes out the records an export gives back.

use vstd::prelude::*;

use crate::db::Database;
use crate::error::{self, WatcherError};
use crate::import::excel::{self, ImportSummary};
use crate::local_time;
use crate::text::{decimal_string};

use super::args::{
    AddArgs, ClearArgs, DeleteArgs, ExportArgs, ImportArgs, QueryArgs, RenameArgs, TargetKind,
    UnmarkArgs, add_target_kind, import_target_kind, inspect_target_kind, delete_target_kind,
    unmark_target_kind,
};
use super::assets::{
    add_asset, delete_asset, ensure_unused_asset_options, import_assets, check_import_assets,
    asset_add_line, asset_add_refused, asset_value_blank, asset_delete_refused, asset_delete_printed,
    asset_options_fail, asset_delete_done, asset_add_done, asset_import_done,
};
use crate::import::excel::sheet_imported;
use crate::db::dict::{dict_path_written, DICT_INSERT_SQL};
use crate::db::sql::committed_among;
use crate::db::assets::system_upserted;
use crate::db::cli_query::set_baseline_system_value_sql;
use crate::db::asset_baseline::MARK_SYSTEM_PORT_SQL;
use super::common::{cli_port, nonblank_lines};
use super::assets::import_count;
use crate::db::BaselineImportRow;
use crate::db::dict::count_paths;
use crate::db::import::{import_summary, summary_is};
use crate::import::excel::rows_of_lines;
use crate::search::{views, join_with};
use crate::models::LogRow;
use crate::text::{trim, decimal};
use super::common::{parse_port, row_lines, opt_str, import_values};
use super::args::{LogLevelArg, db_level};
use crate::db::sql::{Exchange, Param, SqlValue, opt_view, opt_slot, changed_rows, written, text_slot};
use crate::db::helpers::spec_normalize_path;
use crate::db::cli_query::{
    joined_query_sql, baseline_joined_query_sql, saturated, text_row, joined_row, port_query_row,
    QUERY_PORTS_SQL, QUERY_BASELINE_PORTS_SQL, simple_query_sql,
};
use crate::db::helpers::spec_like_pattern;
use crate::db::systems::{summary_row, SYSTEM_SUMMARY_SQL};
use crate::db::logs::{logs_read, log_record};
use crate::db::cli_export::{
    spelled_rows, EXPORT_URLS_SQL, EXPORT_BASELINE_URLS_SQL, EXPORT_PORTS_SQL, EXPORT_BASELINE_PORTS_SQL,
    EXPORT_IPS_SQL, EXPORT_BASELINE_IPS_SQL, EXPORT_NAMES_SQL, EXPORT_BASELINE_NAMES_SQL,
};
use crate::db::systems::SYSTEM_EXPORT_SQL;

verus! {

/// What an import file held: its text, or the cell grid of a worksheet.
#[derive(Debug, Clone)]
pub enum ImportInput {
    Text(String),
    Sheet(Vec<Vec<String>>),
}

/// The line `add` prints.
pub open spec fn add_line(args: AddArgs) -> Seq<char> {
    if add_target_kind(args.target) is System {
        "system added: "@ + args.value@
    } else {
        asset_add_line(add_target_kind(args.target), args.baseline, args.value@)
    }
}

/// An `add` refused before anything is written: a system given an asset
/// option or a blank name, or a refused asset command.
pub open spec fn add_refused(args: AddArgs) -> bool {
    if add_target_kind(args.target) is System {
        args.baseline || args.system is Some || args.ip is Some || args.bind_ip is Some || trim(
            args.value@,
        ).len() == 0
    } else {
        asset_add_refused(args)
    }
}

/// Adds a system or an asset; returns the line to print.
pub fn handle_add(db: &Database, args: AddArgs) -> (r: Result<String, WatcherError>)
    ensures
        add_target_kind(args.target) is System && args.baseline ==> (r matches Err(e)
            && e.is_invalid_with("--baseline is not used by "@ + "system add"@)),
        r matches Ok(line) ==> line@ == add_line(args),
        r matches Ok(_) ==> add_done(db.spec_path(), args),
        add_refused(args) ==> (r matches Err(e) && e is Invalid),
        !add_refused(args) && asset_value_blank(add_target_kind(args.target), args.value@) ==> r is Err,
        r matches Err(e) ==> e.is_storage() || (e is Invalid && (add_refused(args) || asset_value_blank(
            add_target_kind(args.target),
            args.value@,
        ))),
{
    let target = TargetKind::from(args.target);
    match target {
        TargetKind::System => {
            ensure_unused_asset_options(
                args.baseline,
                opt_str(&args.system),
                &args.ip,
                &args.bind_ip,
                "system add",
            )?;
            let id = db.upsert_system(args.value.as_str())?;
            assert(system_upserted(db.spec_path(), args.value@, id@));
            Ok(String::from_str("system added: ").concat(args.value.as_str()))
        },
        TargetKind::Url | TargetKind::Port | TargetKind::Ip | TargetKind::Name => add_asset(db, args),
        _ => Err(error::invalid3("--type ", target.as_str(), " is not supported by add")),
    }
}

/// What a successful add handed to `db`: the named system was found or
/// added, or the asset was written under the system given with it.
pub open spec fn add_done(db: Seq<char>, args: AddArgs) -> bool {
    if add_target_kind(args.target) is System {
        exists|id: Seq<char>| #[trigger] system_upserted(db, args.value@, id)
    } else {
        asset_add_done(db, args)
    }
}

/// The option rules of an import, checked before its file is read.
/// The options of an import that its noun does not take.
pub open spec fn import_options_refused(args: ImportArgs) -> bool {
    let kind = import_target_kind(args.target);
    if kind is Excel {
        args.system is Some || args.ip is Some || args.bind_ip is Some
    } else if kind is Path {
        args.baseline || args.system is Some || args.ip is Some || args.bind_ip is Some
    } else {
        asset_options_fail(kind, crate::db::sql::opt_view(args.system), args.ip is Some, args.bind_ip is Some)
    }
}

/// The file was read the wrong way for the noun: text for a worksheet import,
/// or a worksheet for any other.
pub open spec fn import_input_mismatch(args: ImportArgs, input: ImportInput) -> bool {
    if import_target_kind(args.target) is Excel {
        input is Text
    } else {
        input is Sheet
    }
}

pub fn check_import(args: &ImportArgs) -> (r: Result<(), WatcherError>)
    ensures
        r is Err <==> import_options_refused(*args),
        import_target_kind(args.target) is Excel && args.system is Some ==> (r matches Err(e)
            && e.is_invalid_with("--system is not used by --type excel"@)),
        import_target_kind(args.target) is Path && args.baseline ==> (r matches Err(e)
            && e.is_invalid_with("--baseline is not used by --type "@ + "path"@)),
        r matches Err(e) ==> e is Invalid,
{
    let target = TargetKind::from(args.target);
    match target {
        TargetKind::Excel => {
            if args.system.is_some() {
                return Err(error::invalid("--system is not used by --type excel"));
            }
            if args.ip.is_some() {
                return Err(error::invalid("--ip is not used by --type excel"));
            }
            if args.bind_ip.is_some() {
                return Err(error::invalid("--bind-ip is not used by --type excel"));
            }
            Ok(())
        },
        TargetKind::Path => {
            if args.baseline {
                return Err(error::invalid2("--baseline is not used by --type ", target.as_str()));
            }
            if args.system.is_some() {
                return Err(error::invalid("--system is not used by --type path"));
            }
            if args.ip.is_some() {
                return Err(error::invalid("--ip is not used by --type path"));
            }
            if args.bind_ip.is_some() {
                return Err(error::invalid("--bind-ip is not used by --type path"));
            }
            Ok(())
        },
        _ => check_import_assets(args),
    }
}

/// The line a spreadsheet import prints for its counts of systems, names,
/// IPs, ports and URLs.
pub open spec fn excel_summary_text(c: (nat, nat, nat, nat, nat)) -> Seq<char> {
    "imported baseline systems="@ + decimal(c.0) + ", names="@ + decimal(c.1) + ", ips="@ + decimal(c.2)
        + ", ports="@ + decimal(c.3) + ", urls="@ + decimal(c.4)
}

/// What a successful import prints: the counts of a worksheet import, or
/// how many of the file's non-blank lines were taken.
pub open spec fn import_printed(args: ImportArgs, input: ImportInput, line: Seq<char>) -> bool {
    let kind = import_target_kind(args.target);
    match input {
        ImportInput::Sheet(grid) => kind is Excel && exists|rows: Seq<BaselineImportRow>|
            rows_of_lines(rows, grid@, grid@.len() as int) && line == excel_summary_text(
                #[trigger] import_summary(rows),
            ),
        ImportInput::Text(content) => !(kind is Excel) && exists|values: Seq<String>|
            #[trigger] views(values) == nonblank_lines(content@) && line == "imported "@ + decimal(
                if kind is Path {
                    count_paths(values)
                } else {
                    import_count(kind, values)
                },
            ),
    }
}

/// What a successful import handed to `db`: the rows of the worksheet, the
/// dictionary paths (each non-blank one in its normalised form), or the
/// assets of the non-blank lines of the file, each in a transaction that
/// was committed.
pub open spec fn import_done(db: Seq<char>, args: ImportArgs, input: ImportInput) -> bool {
    match input {
        ImportInput::Sheet(grid) => exists|rows: Seq<BaselineImportRow>| #[trigger] sheet_imported(db, grid@, rows),
        ImportInput::Text(content) => exists|values: Seq<String>|
            #[trigger] views(values) == nonblank_lines(content@) && if import_target_kind(args.target) is Path {
                &&& committed_among(db, set![DICT_INSERT_SQL@])
                &&& forall|i: int|
                    0 <= i < values.len() && spec_normalize_path((#[trigger] values[i])@).len() > 0 ==> dict_path_written(
                        db,
                        values[i]@,
                    )
            } else {
                asset_import_done(db, args, values)
            },
    }
}

/// The line a spreadsheet import prints.
pub fn excel_summary_line(s: ImportSummary) -> (line: String)
    ensures
        line@ == excel_summary_text((s.systems as nat, s.names as nat, s.ips as nat, s.ports as nat, s.urls as nat)),
{
    String::from_str("imported baseline systems=").concat(decimal_string(s.systems as u64).as_str())
        .concat(", names=").concat(decimal_string(s.names as u64).as_str()).concat(", ips=").concat(
        decimal_string(s.ips as u64).as_str(),
    ).concat(", ports=").concat(decimal_string(s.ports as u64).as_str()).concat(", urls=").concat(
        decimal_string(s.urls as u64).as_str(),
    )
}

/// Imports what a file held: a worksheet of baseline assets, dictionary
/// paths, or assets of one system; returns the line to print.
pub fn handle_import(db: &Database, args: &ImportArgs, input: ImportInput) -> (r: Result<String, WatcherError>)
    ensures
        import_options_refused(*args) || import_input_mismatch(*args, input) ==> (r matches Err(e) && e is Invalid),
        r matches Ok(line) ==> import_printed(*args, input, line@),
        r matches Ok(_) ==> import_done(db.spec_path(), *args, input),
        r matches Err(e) ==> e is Invalid || e.is_storage(),
{
    check_import(args)?;
    let target = TargetKind::from(args.target);
    match target {
        TargetKind::Excel => {
            match input {
                ImportInput::Sheet(grid) => {
                    let imported = excel::import_excel(db, &grid)?;
                    let line = excel_summary_line(imported);
                    proof {
                        let rows = choose|rows: Seq<BaselineImportRow>|
                            rows_of_lines(rows, grid@, grid@.len() as int) && summary_is(
                                imported,
                                #[trigger] import_summary(rows),
                            );
                        assert(line@ == excel_summary_text(import_summary(rows)));
                    }
                    Ok(line)
                },
                ImportInput::Text(_) => Err(error::invalid("--type excel reads a worksheet")),
            }
        },
        _ => {
            let content = match input {
                ImportInput::Text(t) => t,
                ImportInput::Sheet(_) => {
                    return Err(error::invalid3("--type ", target.as_str(), " reads a text file"));
                },
            };
            let values = import_values(content.as_str());
            let count = if target == TargetKind::Path {
                db.import_dict_paths(&values)?
            } else {
                import_assets(db, args, &values)?
            };
            let line = String::from_str("imported ").concat(decimal_string(count as u64).as_str());
            proof {
                assert(views(values@) == nonblank_lines(content@));
            }
            Ok(line)
        },
    }
}

/// The records an export writes (header first), and whether the file path
/// is printed afterwards.
#[derive(Debug, Clone)]
pub struct ExportOutput {
    pub records: Vec<Vec<String>>,
    pub announce: bool,
}

/// Gathers the records of an export; log times are shown at
/// `offset_seconds` from UTC.
pub fn handle_export(db: &Database, args: &ExportArgs, offset_seconds: i32) -> (r: Result<ExportOutput, WatcherError>)
    requires
        -86400 < offset_seconds < 86400,
    ensures
        (inspect_target_kind(args.target) is System || inspect_target_kind(args.target) is Path
            || inspect_target_kind(args.target) is Log) && args.baseline ==> (r matches Err(e)
            && e.is_invalid_with(
            "--baseline is not used by --type "@ + super::args::kind_name(inspect_target_kind(args.target)),
        )),
        r matches Ok(out) ==> out.records@.len() >= 1 && (out.announce <==> !(inspect_target_kind(args.target) is Path)),
        r matches Ok(out) ==> export_answered(db.spec_path(), *args, offset_seconds as int, out.records@),
        (r matches Err(e) && e is Invalid) <==> baseline_misused(inspect_target_kind(args.target), args.baseline),
        r matches Err(e) ==> e is Invalid || e.is_storage(),
{
    let target = TargetKind::from(args.target);
    let records = match target {
        TargetKind::Url => if args.baseline {
            db.export_baseline_urls()?
        } else {
            db.export_urls()?
        },
        TargetKind::Port => if args.baseline {
            db.export_baseline_ports()?
        } else {
            db.export_ports()?
        },
        TargetKind::Ip => if args.baseline {
            db.export_baseline_ips()?
        } else {
            db.export_ips()?
        },
        TargetKind::Name => if args.baseline {
            db.export_baseline_names()?
        } else {
            db.export_names()?
        },
        TargetKind::System => {
            if args.baseline {
                return Err(error::invalid2("--baseline is not used by --type ", target.as_str()));
            }
            db.export_systems()?
        },
        TargetKind::Path => {
            if args.baseline {
                return Err(error::invalid2("--baseline is not used by --type ", target.as_str()));
            }
            let records = db.export_dict_paths()?;
            return Ok(ExportOutput { records, announce: false });
        },
        TargetKind::Log => {
            if args.baseline {
                return Err(error::invalid2("--baseline is not used by --type ", target.as_str()));
            }
            let level = match args.level {
                Some(l) => Some(l.as_db_level()),
                None => None,
            };
            db.export_logs(level, opt_str(&args.keyword), args.limit, offset_seconds)?
        },
        _ => {
            return Err(error::invalid3("--type ", target.as_str(), " is not supported by export"));
        },
    };
    Ok(ExportOutput { records, announce: true })
}

/// `--baseline` was given to a noun that has no baseline.
pub open spec fn baseline_misused(kind: TargetKind, baseline: bool) -> bool {
    (kind is System || kind is Path || kind is Log) && baseline
}

/// The printed line of a log record: its time at the display offset, level,
/// target, message and fields, separated by tabs.
pub open spec fn log_line(row: LogRow, offset_seconds: int) -> Seq<char> {
    local_time::spec_to_local(row.created_at@, offset_seconds) + "\t"@ + row.level@ + "\t"@ + row.target@
        + "\t"@ + row.message@ + "\t"@ + match row.fields {
        Some(f) => f@,
        None => Seq::empty(),
    }
}

/// The pattern and limit parameters of a listing for `keyword`.
pub open spec fn listing_params(keyword: Option<String>, limit: usize) -> Seq<Param> {
    seq![Param::Text(spec_like_pattern(opt_view(keyword))), Param::Integer(saturated(limit))]
}

/// The parameters a listing query gets for a keyword are those of the
/// keyword as the arguments hold it.
proof fn lemma_listing_params(keyword: Option<&str>, held: Option<String>, limit: usize)
    requires
        match held {
            Some(s) => keyword matches Some(t) && t@ == s@,
            None => keyword is None,
        },
    ensures
        crate::db::cli_query::keyword_limit_params(keyword, limit) == listing_params(held, limit),
{
}

/// SQLite answered the statement `stmt` on the database file `db` with rows
/// that decode, one for one and in order, as `rows`.
pub open spec fn answered_with(
    db: Seq<char>,
    stmt: (Seq<char>, Seq<Param>),
    rows: Seq<Vec<String>>,
    decoded: spec_fn(Seq<SqlValue>, Seq<String>) -> bool,
) -> bool {
    exists|x: Exchange|
        x.on() == db && #[trigger] x.handed() == stmt && rows.len() == x.reply().len() && forall|i: int|
            0 <= i < rows.len() ==> decoded(x.reply()[i]@, #[trigger] rows[i]@)
}

/// The rows a listing of `kind` (of baseline assets when `baseline`) got
/// from `db`: what SQLite answered to that listing's query.
pub open spec fn listing_answered(
    db: Seq<char>,
    kind: TargetKind,
    baseline: bool,
    keyword: Option<String>,
    limit: usize,
    rows: Seq<Vec<String>>,
) -> bool {
    let p = listing_params(keyword, limit);
    let flagged = |r: Seq<SqlValue>, c: Seq<String>| joined_row(r, c);
    let pair = |r: Seq<SqlValue>, c: Seq<String>| text_row(r, 2, c);
    match kind {
        TargetKind::Url => if baseline {
            answered_with(db, (baseline_joined_query_sql("urls"@, "url"@), p), rows, pair)
        } else {
            answered_with(db, (joined_query_sql("urls"@, "url"@), p), rows, flagged)
        },
        TargetKind::Port => if baseline {
            answered_with(db, (QUERY_BASELINE_PORTS_SQL@, p), rows, |r: Seq<SqlValue>, c: Seq<String>| port_query_row(r, false, c))
        } else {
            answered_with(db, (QUERY_PORTS_SQL@, p), rows, |r: Seq<SqlValue>, c: Seq<String>| port_query_row(r, true, c))
        },
        TargetKind::Ip => if baseline {
            answered_with(db, (baseline_joined_query_sql("ip_addresses"@, "ip"@), p), rows, pair)
        } else {
            answered_with(db, (joined_query_sql("ip_addresses"@, "ip"@), p), rows, flagged)
        },
        TargetKind::Name => if baseline {
            answered_with(db, (baseline_joined_query_sql("domains"@, "name"@), p), rows, pair)
        } else {
            answered_with(db, (joined_query_sql("domains"@, "name"@), p), rows, flagged)
        },
        TargetKind::System => answered_with(db, (SYSTEM_SUMMARY_SQL@, p), rows, |r: Seq<SqlValue>, c: Seq<String>| summary_row(r, c)),
        TargetKind::Path => answered_with(db, (simple_query_sql("dict_paths"@, "path"@), p), rows, |r: Seq<SqlValue>, c: Seq<String>| text_row(r, 1, c)),
        _ => false,
    }
}

/// The level filter a log query gets for a `--level` argument: the level
/// as log records store it, in upper case.
pub open spec fn level_text(level: Option<LogLevelArg>) -> Option<Seq<char>> {
    match level {
        Some(l) => Some(crate::text::ascii_upper(db_level(l))),
        None => None,
    }
}

/// SQLite answered the export query `sql` on the database file `db`, and the
/// records after the header line spell its rows.
pub open spec fn exported_with(db: Seq<char>, sql: Seq<char>, records: Seq<Vec<String>>) -> bool {
    exists|x: Exchange|
        x.on() == db && #[trigger] x.handed() == (sql, Seq::<Param>::empty()) && spelled_rows(records.skip(1), x.reply())
}

/// The records an export of `kind` (of baseline assets when `baseline`)
/// got from `db`: a header line, then what SQLite answered to that export's
/// query, spelled as text; for logs, one record per log row the log query
/// answered, with its time at the display offset.
pub open spec fn export_answered(db: Seq<char>, args: ExportArgs, offset_seconds: int, records: Seq<Vec<String>>) -> bool {
    let baseline = args.baseline;
    match inspect_target_kind(args.target) {
        TargetKind::Url => exported_with(db, if baseline { EXPORT_BASELINE_URLS_SQL@ } else { EXPORT_URLS_SQL@ }, records),
        TargetKind::Port => exported_with(db, if baseline { EXPORT_BASELINE_PORTS_SQL@ } else { EXPORT_PORTS_SQL@ }, records),
        TargetKind::Ip => exported_with(db, if baseline { EXPORT_BASELINE_IPS_SQL@ } else { EXPORT_IPS_SQL@ }, records),
        TargetKind::Name => exported_with(db, if baseline { EXPORT_BASELINE_NAMES_SQL@ } else { EXPORT_NAMES_SQL@ }, records),
        TargetKind::System => exported_with(db, SYSTEM_EXPORT_SQL@, records),
        TargetKind::Path => exported_with(db, "SELECT path FROM dict_paths ORDER BY path"@, records),
        TargetKind::Log => exists|logs: Seq<LogRow>|
            #[trigger] logs_read(db, level_text(args.level), opt_view(args.keyword), args.limit, logs)
                && records.len() == logs.len() + 1 && forall|i: int|
                0 <= i < logs.len() ==> log_record(logs[i], offset_seconds, #[trigger] records.skip(1)[i]@),
        _ => false,
    }
}

/// The lines a query prints from `db`: one per log record for logs, one per
/// result row (cells separated by tabs) otherwise, each from what SQLite
/// answered to the query the arguments ask for.
pub open spec fn query_printed(db: Seq<char>, args: QueryArgs, offset_seconds: int, lines: Seq<String>) -> bool {
    let kind = inspect_target_kind(args.target);
    if kind is Log {
        exists|logs: Seq<LogRow>|
            #[trigger] logs_read(db, level_text(args.level), opt_view(args.keyword), args.limit, logs) && logs.len() == lines.len() && forall|k: int|
                0 <= k < lines.len() ==> (#[trigger] lines[k])@ == log_line(logs[k], offset_seconds)
    } else {
        exists|rows: Seq<Vec<String>>|
            #[trigger] listing_answered(db, kind, args.baseline, args.keyword, args.limit, rows) && rows.len() == lines.len() && forall|k: int|
                0 <= k < lines.len() ==> (#[trigger] lines[k])@ == join_with(views(rows[k]@), "\t"@)
    }
}

/// Lists what a query asks for as printed lines; log times are shown at
/// `offset_seconds` from UTC.
pub fn handle_query(db: &Database, args: &QueryArgs, offset_seconds: i32) -> (r: Result<Vec<String>, WatcherError>)
    requires
        -86400 < offset_seconds < 86400,
    ensures
        (inspect_target_kind(args.target) is System || inspect_target_kind(args.target) is Path
            || inspect_target_kind(args.target) is Log) && args.baseline ==> (r matches Err(e)
            && e.is_invalid_with(
            "--baseline is not used by --type "@ + super::args::kind_name(inspect_target_kind(args.target)),
        )),
        r matches Ok(lines) ==> query_printed(db.spec_path(), *args, offset_seconds as int, lines@),
        (r matches Err(e) && e is Invalid) <==> baseline_misused(inspect_target_kind(args.target), args.baseline),
        r matches Err(e) ==> e is Invalid || e.is_storage(),
{
    let target = TargetKind::from(args.target);
    let keyword = opt_str(&args.keyword);
    let rows = match target {
        TargetKind::Url => if args.baseline {
            {
                let rows = db.query_baseline_urls(keyword, args.limit)?;
                proof {
                    lemma_listing_params(keyword, args.keyword, args.limit);
                }
                assert(listing_answered(db.spec_path(), inspect_target_kind(args.target), args.baseline, args.keyword, args.limit, rows@));
                rows
            }
        } else {
            {
                let rows = db.query_urls(keyword, args.limit)?;
                proof {
                    lemma_listing_params(keyword, args.keyword, args.limit);
                }
                assert(listing_answered(db.spec_path(), inspect_target_kind(args.target), args.baseline, args.keyword, args.limit, rows@));
                rows
            }
        },
        TargetKind::Port => if args.baseline {
            {
                let rows = db.query_baseline_ports(keyword, args.limit)?;
                proof {
                    lemma_listing_params(keyword, args.keyword, args.limit);
                }
                assert(listing_answered(db.spec_path(), inspect_target_kind(args.target), args.baseline, args.keyword, args.limit, rows@));
                rows
            }
        } else {
            {
                let rows = db.query_ports(keyword, args.limit)?;
                proof {
                    lemma_listing_params(keyword, args.keyword, args.limit);
                }
                assert(listing_answered(db.spec_path(), inspect_target_kind(args.target), args.baseline, args.keyword, args.limit, rows@));
                rows
            }
        },
        TargetKind::Ip => if args.baseline {
            {
                let rows = db.query_baseline_ips(keyword, args.limit)?;
                proof {
                    lemma_listing_params(keyword, args.keyword, args.limit);
                }
                assert(listing_answered(db.spec_path(), inspect_target_kind(args.target), args.baseline, args.keyword, args.limit, rows@));
                rows
            }
        } else {
            {
                let rows = db.query_ips(keyword, args.limit)?;
                proof {
                    lemma_listing_params(keyword, args.keyword, args.limit);
                }
                assert(listing_answered(db.spec_path(), inspect_target_kind(args.target), args.baseline, args.keyword, args.limit, rows@));
                rows
            }
        },
        TargetKind::Name => if args.baseline {
            {
                let rows = db.query_baseline_names(keyword, args.limit)?;
                proof {
                    lemma_listing_params(keyword, args.keyword, args.limit);
                }
                assert(listing_answered(db.spec_path(), inspect_target_kind(args.target), args.baseline, args.keyword, args.limit, rows@));
                rows
            }
        } else {
            {
                let rows = db.query_names(keyword, args.limit)?;
                proof {
                    lemma_listing_params(keyword, args.keyword, args.limit);
                }
                assert(listing_answered(db.spec_path(), inspect_target_kind(args.target), args.baseline, args.keyword, args.limit, rows@));
                rows
            }
        },
        TargetKind::System => {
            if args.baseline {
                return Err(error::invalid2("--baseline is not used by --type ", target.as_str()));
            }
            {
                let rows = db.query_systems(keyword, args.limit)?;
                proof {
                    lemma_listing_params(keyword, args.keyword, args.limit);
                }
                assert(listing_answered(db.spec_path(), inspect_target_kind(args.target), args.baseline, args.keyword, args.limit, rows@));
                rows
            }
        },
        TargetKind::Path => {
            if args.baseline {
                return Err(error::invalid2("--baseline is not used by --type ", target.as_str()));
            }
            {
                let rows = db.query_dict_paths(keyword, args.limit)?;
                proof {
                    lemma_listing_params(keyword, args.keyword, args.limit);
                }
                assert(listing_answered(db.spec_path(), inspect_target_kind(args.target), args.baseline, args.keyword, args.limit, rows@));
                rows
            }
        },
        TargetKind::Log => {
            if args.baseline {
                return Err(error::invalid2("--baseline is not used by --type ", target.as_str()));
            }
            let level = match args.level {
                Some(l) => Some(l.as_db_level()),
                None => None,
            };
            let logs = db.query_logs(level, keyword, args.limit)?;
            proof {
                let level_text = match args.level {
                    Some(l) => Some(crate::text::ascii_upper(db_level(l))),
                    None => None,
                };
                assert(crate::db::logs::level_filter(level) == level_text);
                assert(crate::db::cli_query::keyword_view(keyword) == opt_view(args.keyword));
            }
            assert(logs_read(db.spec_path(), level_text(args.level), opt_view(args.keyword), args.limit, logs@));
            let mut lines: Vec<String> = Vec::new();
            let mut i: usize = 0;
            while i < logs.len()
                invariant
                    i <= logs@.len(),
                    -86400 < offset_seconds < 86400,
                    lines@.len() == i,
                    forall|k: int| 0 <= k < i ==> (#[trigger] lines@[k])@ == log_line(logs@[k], offset_seconds as int),
                decreases logs.len() - i,
            {
                let row = &logs[i];
                let fields = match &row.fields {
                    Some(f) => f.as_str(),
                    None => "",
                };
                let line = local_time::rfc3339_to_local(row.created_at.as_str(), offset_seconds).concat(
                    "\t",
                ).concat(row.level.as_str()).concat("\t").concat(row.target.as_str()).concat(
                    "\t",
                ).concat(row.message.as_str()).concat("\t").concat(fields);
                proof {
                    reveal_strlit("");
                    assert(fields@ == match logs@[i as int].fields {
                        Some(f) => f@,
                        None => Seq::<char>::empty(),
                    });
                }
                assert(line@ == log_line(logs@[i as int], offset_seconds as int));
                lines.push(line);
                i = i + 1;
            }
            assert(logs@.len() == lines@.len());
            return Ok(lines);
        },
        _ => {
            return Err(error::invalid3("--type ", target.as_str(), " is not supported by query"));
        },
    };
    let lines = row_lines(&rows);
    assert(rows@.len() == lines@.len());
    Ok(lines)
}

/// A delete refused before anything is removed: a system or path delete
/// given an asset option (or a blank system name), or a refused asset
/// delete.
pub open spec fn delete_refused(args: DeleteArgs) -> bool {
    let kind = delete_target_kind(args.target);
    if kind is System {
        args.baseline || args.system is Some || args.ip is Some || trim(args.value@).len() == 0
    } else if kind is Path {
        args.baseline || args.system is Some || args.ip is Some
    } else {
        asset_delete_refused(args)
    }
}

/// What a successful delete prints.
pub open spec fn delete_printed(args: DeleteArgs, line: Seq<char>) -> bool {
    let kind = delete_target_kind(args.target);
    if kind is System {
        exists|n: nat| line == "deleted systems: "@ + #[trigger] decimal(n)
    } else if kind is Path {
        line == "deleted path: "@ + args.value@
    } else {
        asset_delete_printed(args, line)
    }
}

/// What a successful delete handed to `db`: the delete of the trimmed
/// system name that removed the number of systems the line reports, the
/// delete of the normalised path, or that of the asset.
pub open spec fn delete_done(db: Seq<char>, args: DeleteArgs, line: Seq<char>) -> bool {
    let kind = delete_target_kind(args.target);
    if kind is System {
        exists|n: nat|
            line == "deleted systems: "@ + #[trigger] decimal(n) && changed_rows(
                db,
                ("DELETE FROM systems WHERE name = ?1"@, seq![text_slot(trim(args.value@))]),
                n,
            )
    } else if kind is Path {
        written(db, ("DELETE FROM dict_paths WHERE path = ?1"@, seq![text_slot(spec_normalize_path(args.value@))]))
    } else {
        asset_delete_done(db, args, line)
    }
}

/// Deletes a system, a dictionary path or an asset; returns the line to
/// print.
pub fn handle_delete(db: &Database, args: DeleteArgs) -> (r: Result<String, WatcherError>)
    ensures
        (delete_target_kind(args.target) is System || delete_target_kind(args.target) is Path)
            && args.baseline ==> (r matches Err(e) && e.is_invalid_with(
            "--baseline is not used by --type "@ + super::args::kind_name(delete_target_kind(args.target)),
        )),
        r matches Ok(line) ==> delete_printed(args, line@),
        r matches Ok(line) ==> delete_done(db.spec_path(), args, line@),
        (r matches Err(e) && e is Invalid) <==> delete_refused(args),
        r matches Err(e) ==> e is Invalid || e.is_storage(),
{
    let target = TargetKind::from(args.target);
    match target {
        TargetKind::System => {
            if args.baseline {
                return Err(error::invalid2("--baseline is not used by --type ", target.as_str()));
            }
            if args.system.is_some() {
                return Err(error::invalid("--system is not used by --type system"));
            }
            if args.ip.is_some() {
                return Err(error::invalid("--ip is not used by --type system"));
            }
            let deleted = db.delete_system(args.value.as_str())?;
            let line = String::from_str("deleted systems: ").concat(decimal_string(deleted as u64).as_str());
            assert(line@ == "deleted systems: "@ + decimal(deleted as nat));
            Ok(line)
        },
        TargetKind::Path => {
            if args.baseline {
                return Err(error::invalid2("--baseline is not used by --type ", target.as_str()));
            }
            if args.system.is_some() {
                return Err(error::invalid("--system is not used by --type path"));
            }
            if args.ip.is_some() {
                return Err(error::invalid("--ip is not used by --type path"));
            }
            db.delete_dict_path(args.value.as_str())?;
            Ok(String::from_str("deleted path: ").concat(args.value.as_str()))
        },
        TargetKind::Url | TargetKind::Port | TargetKind::Ip | TargetKind::Name => delete_asset(db, args),
        _ => Err(error::invalid3("--type ", target.as_str(), " is not supported by delete")),
    }
}

/// An unmark refused before anything is changed: a port that does not
/// parse, or `--ip` on a name.
pub open spec fn unmark_refused(args: UnmarkArgs) -> bool {
    let kind = unmark_target_kind(args.target);
    (kind is Port && cli_port(args.value@) is None) || (kind is Name && args.ip is Some)
}

/// What a successful unmark handed to `db`: the update that took the
/// asset of the system out of the baseline and changed `n` rows.
pub open spec fn unmark_done(db: Seq<char>, args: UnmarkArgs, n: nat) -> bool {
    let s = args.system@;
    let v = args.value@;
    match unmark_target_kind(args.target) {
        TargetKind::Url => changed_rows(db, (set_baseline_system_value_sql("urls"@, "url"@), seq![
            Some(Param::Integer(0)), text_slot(s), text_slot(v)]), n),
        TargetKind::Port => changed_rows(db, (MARK_SYSTEM_PORT_SQL@, seq![
            Some(Param::Integer(0)),
            text_slot(s),
            Some(Param::Integer(cli_port(v).unwrap() as i64)),
            opt_slot(opt_view(args.ip)),
        ]), n),
        TargetKind::Ip => changed_rows(db, (set_baseline_system_value_sql("ip_addresses"@, "ip"@), seq![
            Some(Param::Integer(0)), text_slot(s), text_slot(v)]), n),
        _ => changed_rows(db, (set_baseline_system_value_sql("domains"@, "name"@), seq![
            Some(Param::Integer(0)), text_slot(s), text_slot(v)]), n),
    }
}

/// Takes an asset of a system out of the baseline; returns the line to
/// print.
pub fn handle_unmark(db: &Database, args: &UnmarkArgs) -> (r: Result<String, WatcherError>)
    ensures
        unmark_target_kind(args.target) is Name && args.ip is Some ==> (r matches Err(e)
            && e.is_invalid_with("--ip is only supported by --type port"@)),
        r matches Ok(line) ==> exists|n: nat| line@ == "baseline rows updated: "@ + #[trigger] decimal(n) && unmark_done(db.spec_path(), *args, n),
        (r matches Err(e) && e is Invalid) <==> unmark_refused(*args),
        r matches Err(e) ==> e is Invalid || e.is_storage(),
{
    let target = TargetKind::from(args.target);
    let system = args.system.as_str();
    let value = args.value.as_str();
    let changed = match target {
        TargetKind::Url => db.set_url_baseline_for_system(system, value, false)?,
        TargetKind::Port => {
            let port = parse_port(value)?;
            db.set_port_baseline_for_system(system, opt_str(&args.ip), port, false)?
        },
        TargetKind::Ip => db.set_ip_baseline_for_system(system, value, false)?,
        TargetKind::Name => {
            if args.ip.is_some() {
                return Err(error::invalid("--ip is only supported by --type port"));
            }
            db.set_name_baseline_for_system(system, value, false)?
        },
        _ => {
            return Err(error::invalid3("--type ", target.as_str(), " is not supported by unmark"));
        },
    };
    let line = String::from_str("baseline rows updated: ").concat(decimal_string(changed as u64).as_str());
    assert(line@ == "baseline rows updated: "@ + decimal(changed as nat));
    Ok(line)
}

/// Renames a system; returns the line to print.
pub fn handle_rename(db: &Database, args: &RenameArgs) -> (r: Result<String, WatcherError>)
    ensures
        trim(args.old_name@).len() == 0 ==> (r matches Err(e) && e.is_invalid_with(
            "old system name must not be empty"@,
        )),
        trim(args.old_name@).len() > 0 && trim(args.new_name@).len() == 0 ==> (r matches Err(e)
            && e.is_invalid_with("new system name must not be empty"@)),
        r matches Ok(line) ==> exists|n: nat| line@ == "renamed systems: "@ + #[trigger] decimal(n) && changed_rows(
            db.spec_path(),
            ("UPDATE systems SET name = ?1 WHERE name = ?2"@, seq![text_slot(trim(args.new_name@)), text_slot(trim(args.old_name@))]),
            n,
        ),
        r matches Err(e) ==> e is Invalid || e.is_storage(),
        trim(args.old_name@).len() > 0 && trim(args.new_name@).len() > 0 ==> (r matches Err(e)
            ==> e.is_storage()),
{
    let changed = db.rename_system(args.old_name.as_str(), args.new_name.as_str())?;
    let line = String::from_str("renamed systems: ").concat(decimal_string(changed as u64).as_str());
    assert(line@ == "renamed systems: "@ + decimal(changed as nat));
    Ok(line)
}

/// Deletes log records, all of them or those before a time; returns the
/// line to print.
pub fn handle_clear(db: &Database, args: &ClearArgs) -> (r: Result<String, WatcherError>)
    ensures
        r matches Ok(line) ==> exists|n: nat| line@ == "deleted logs: "@ + #[trigger] decimal(n) && changed_rows(
            db.spec_path(),
            match args.before {
                Some(b) => ("DELETE FROM logs WHERE created_at < ?1"@, seq![text_slot(b@)]),
                None => ("DELETE FROM logs"@, Seq::<Option<Param>>::empty()),
            },
            n,
        ),
        r matches Err(e) ==> e.is_storage(),
{
    let deleted = db.clear_logs(opt_str(&args.before))?;
    let line = String::from_str("deleted logs: ").concat(decimal_string(deleted as u64).as_str());
    assert(line@ == "deleted logs: "@ + decimal(deleted as nat));
    Ok(line)
}

} // verus!
