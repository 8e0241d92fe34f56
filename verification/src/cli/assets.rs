//! Adding, importing and deleting URLs, ports, IPs and names from the
//! action-first commands, and the rules on which options apply.

use vstd::prelude::*;

use crate::db::Database;
use crate::error::{self, WatcherError};
use crate::text::{decimal_string, decimal, trim};
use crate::db::assets::domain_key;
use crate::db::import::{
    count_nonblank, has_degenerate_value, values_written, ports_imported, IMPORT_BASELINE_URLS_SQL, IMPORT_URLS_SQL,
    IMPORT_BASELINE_IPS_SQL, IMPORT_IPS_SQL, IMPORT_BASELINE_NAMES_SQL, IMPORT_NAMES_SQL,
};
use crate::db::helpers::spec_trimmed_opt;

use super::args::{AddArgs, DeleteArgs, ImportArgs, TargetKind, kind_name, add_target_kind, import_target_kind, delete_target_kind};
use super::common::{parse_port, cli_port, opt_str};
use crate::db::sql::{Exchange, Param, changed_rows, written, text_slot, opt_slot, opt_view};
use crate::db::assets::{system_upserted, url_upserted, port_on_ip_upserted, ip_upserted, domain_upserted};
use crate::db::cli_query::set_baseline_id_sql;
use crate::db::cli_query::{delete_value_sql, delete_system_value_sql};
use crate::db::cli_delete::DELETE_SYSTEM_PORT_SQL;

verus! {

/// The system an asset command acts on; it is required.
pub fn required_system(system: Option<&str>, target: TargetKind) -> (r: Result<&str, WatcherError>)
    ensures
        match system {
            Some(s) => r == Ok::<&str, WatcherError>(s),
            None => r matches Err(e) && e.is_invalid_with("--system is required for --type "@ + kind_name(target)),
        },
{
    match system {
        Some(s) => Ok(s),
        None => Err(error::invalid2("--system is required for --type ", target.as_str())),
    }
}

/// `--ip` goes only with ports and `--bind-ip` only with names.
pub fn ensure_asset_bind_options(target: TargetKind, ip: Option<&str>, bind_ip: Option<&str>) -> (r:
    Result<(), WatcherError>)
    ensures
        !(target is Port) && ip is Some ==> (r matches Err(e) && e.is_invalid_with(
            "--ip is only supported by --type port"@,
        )),
        (target is Port || ip is None) && !(target is Name) && bind_ip is Some ==> (r matches Err(e)
            && e.is_invalid_with("--bind-ip is only supported by --type name"@)),
        (target is Port || ip is None) && (target is Name || bind_ip is None) ==> r is Ok,
{
    if !(target == TargetKind::Port) && ip.is_some() {
        return Err(error::invalid("--ip is only supported by --type port"));
    }
    if !(target == TargetKind::Name) && bind_ip.is_some() {
        return Err(error::invalid("--bind-ip is only supported by --type name"));
    }
    Ok(())
}

/// A command that takes none of the asset options was given none.
pub fn ensure_unused_asset_options(
    baseline: bool,
    system: Option<&str>,
    ip: &Option<String>,
    bind_ip: &Option<String>,
    command: &str,
) -> (r: Result<(), WatcherError>)
    ensures
        baseline ==> (r matches Err(e) && e.is_invalid_with("--baseline is not used by "@ + command@)),
        !baseline && system is Some ==> (r matches Err(e) && e.is_invalid_with(
            "--system is not used by "@ + command@,
        )),
        !baseline && system is None && ip is Some ==> (r matches Err(e) && e.is_invalid_with(
            "--ip is not used by "@ + command@,
        )),
        !baseline && system is None && ip is None && bind_ip is Some ==> (r matches Err(e)
            && e.is_invalid_with("--bind-ip is not used by "@ + command@)),
        !baseline && system is None && ip is None && bind_ip is None ==> r is Ok,
{
    if baseline {
        return Err(error::invalid2("--baseline is not used by ", command));
    }
    if system.is_some() {
        return Err(error::invalid2("--system is not used by ", command));
    }
    if ip.is_some() {
        return Err(error::invalid2("--ip is not used by ", command));
    }
    if bind_ip.is_some() {
        return Err(error::invalid2("--bind-ip is not used by ", command));
    }
    Ok(())
}

/// The ports of the values of an import file, in order; the first value
/// that is not a port stops the reading.
pub open spec fn ports_of_values(values: Seq<String>) -> Option<Seq<u16>>
    decreases values.len(),
{
    if values.len() == 0 {
        Some(Seq::empty())
    } else {
        match ports_of_values(values.drop_last()) {
            Some(v) => match cli_port(values.last()@) {
                Some(p) => Some(v.push(p)),
                None => None,
            },
            None => None,
        }
    }
}

/// Reads every value as a port.
pub fn parse_ports(values: &Vec<String>) -> (r: Result<Vec<u16>, WatcherError>)
    ensures
        match ports_of_values(values@) {
            Some(p) => r matches Ok(v) && v@ == p,
            None => r matches Err(e) && e is Invalid,
        },
{
    let mut ports: Vec<u16> = Vec::new();
    let mut i: usize = 0;
    assert(values@.take(0) =~= Seq::<String>::empty());
    while i < values.len()
        invariant
            i <= values@.len(),
            ports_of_values(values@.take(i as int)) == Some(ports@),
        decreases values.len() - i,
    {
        assert(values@.take(i + 1).drop_last() =~= values@.take(i as int));
        match parse_port(values[i].as_str()) {
            Ok(p) => {
                ports.push(p);
            },
            Err(e) => {
                proof {
                    lemma_ports_prefix_none(values@, i + 1);
                }
                return Err(e);
            },
        }
        i = i + 1;
    }
    assert(values@.take(values@.len() as int) =~= values@);
    Ok(ports)
}

/// Once a value is not a port, no longer list reads.
proof fn lemma_ports_prefix_none(values: Seq<String>, k: int)
    requires
        0 <= k <= values.len(),
        ports_of_values(values.take(k)) is None,
    ensures
        ports_of_values(values) is None,
    decreases values.len() - k,
{
    if k < values.len() {
        assert(values.take(k + 1).drop_last() =~= values.take(k));
        lemma_ports_prefix_none(values, k + 1);
    } else {
        assert(values.take(k) =~= values);
    }
}

/// The option rules an asset `add` or `import` checks first.
pub open spec fn asset_options_fail(target: TargetKind, system: Option<Seq<char>>, ip: bool, bind_ip: bool) -> bool {
    system is None || (!(target is Port) && ip) || (!(target is Name) && bind_ip)
}

/// The line `add` prints after adding an asset.
pub open spec fn asset_add_line(kind: TargetKind, baseline: bool, value: Seq<char>) -> Seq<char> {
    match kind {
        TargetKind::Url => if baseline {
            "baseline url added: "@ + value
        } else {
            "added url: "@ + value
        },
        TargetKind::Port => if baseline {
            "baseline port added: "@ + decimal(cli_port(value).unwrap() as nat)
        } else {
            "added port: "@ + decimal(cli_port(value).unwrap() as nat)
        },
        TargetKind::Ip => if baseline {
            "baseline ip added: "@ + value
        } else {
            "added ip: "@ + value
        },
        _ => if baseline {
            "baseline name added: "@ + value
        } else {
            "added name: "@ + value
        },
    }
}

/// Whether a noun is one of the four asset kinds.
pub open spec fn is_asset_kind(kind: TargetKind) -> bool {
    kind is Url || kind is Port || kind is Ip || kind is Name
}

/// An asset `add` that is refused before anything is written: not an asset
/// noun, a missing or blank system, a misplaced `--ip` or `--bind-ip`, or a
/// port that does not parse.
pub open spec fn asset_add_refused(args: AddArgs) -> bool {
    let kind = add_target_kind(args.target);
    ||| !is_asset_kind(kind)
    ||| asset_options_fail(kind, crate::db::sql::opt_view(args.system), args.ip is Some, args.bind_ip is Some)
    ||| trim(args.system.unwrap()@).len() == 0
    ||| (kind is Port && cli_port(args.value@) is None)
}

/// The value of an asset is blank as the store reads it: a URL or IP that
/// trims to nothing, a name with nothing left but dots.
pub open spec fn asset_value_blank(kind: TargetKind, value: Seq<char>) -> bool {
    match kind {
        TargetKind::Url => trim(value).len() == 0,
        TargetKind::Ip => trim(value).len() == 0,
        TargetKind::Name => domain_key(value).len() == 0,
        _ => false,
    }
}

/// The row with id `id` of `table` was marked baseline on `db`.
pub open spec fn baseline_marked(db: Seq<char>, table: Seq<char>, id: Seq<char>) -> bool {
    exists|x: Exchange|
        x.on() == db && #[trigger] x.handed() == (set_baseline_id_sql(table), seq![Param::Integer(1), Param::Text(id)])
}

/// The asset an add names was written on `db` as a manual entry of the
/// system with id `sid`, under the id `id`, and marked baseline with
/// `--baseline`.
pub open spec fn asset_row_added(db: Seq<char>, args: AddArgs, sid: Seq<char>, id: Seq<char>) -> bool {
    let v = args.value@;
    match add_target_kind(args.target) {
        TargetKind::Url => url_upserted(db, sid, v, "manual"@, None, 0, id) && (args.baseline ==> baseline_marked(db, "urls"@, id)),
        TargetKind::Port => port_on_ip_upserted(db, sid, opt_view(args.ip), cli_port(v).unwrap(), "manual"@, id) && (
        args.baseline ==> baseline_marked(db, "ports"@, id)),
        TargetKind::Ip => ip_upserted(db, sid, v, "manual"@, id) && (args.baseline ==> baseline_marked(db, "ip_addresses"@, id)),
        _ => domain_upserted(db, sid, v, opt_view(args.bind_ip), id) && (args.baseline ==> baseline_marked(db, "domains"@, id)),
    }
}

/// What a successful asset add handed to `db`: the system named by
/// `--system` was found or added, and the asset was written under it.
pub open spec fn asset_add_done(db: Seq<char>, args: AddArgs) -> bool {
    exists|sid: Seq<char>, id: Seq<char>|
        #[trigger] system_upserted(db, opt_view(args.system).unwrap(), sid) && #[trigger] asset_row_added(db, args, sid, id)
}

/// Adds one URL, port, IP or name to a system, to the baseline with
/// `--baseline`; returns the line to print. A refused command writes
/// nothing; a blank value is refused by the store after the system row.
pub fn add_asset(db: &Database, args: AddArgs) -> (r: Result<String, WatcherError>)
    ensures
        r matches Ok(line) ==> line@ == asset_add_line(add_target_kind(args.target), args.baseline, args.value@),
        r matches Ok(_) ==> asset_add_done(db.spec_path(), args),
        asset_add_refused(args) ==> (r matches Err(e) && e is Invalid),
        !asset_add_refused(args) && asset_value_blank(add_target_kind(args.target), args.value@) ==> r is Err,
        r matches Err(e) ==> e.is_storage() || (e is Invalid && (asset_add_refused(args) || asset_value_blank(
            add_target_kind(args.target),
            args.value@,
        ))),
        asset_options_fail(add_target_kind(args.target), crate::db::sql::opt_view(args.system), args.ip is Some, args.bind_ip is Some)
            ==> r is Err,
        (add_target_kind(args.target) is Port && cli_port(args.value@) is None) ==> r is Err,
{
    let target = TargetKind::from(args.target);
    let system = required_system(opt_str(&args.system), target)?;
    ensure_asset_bind_options(target, opt_str(&args.ip), opt_str(&args.bind_ip))?;
    let value = args.value.as_str();
    match target {
        TargetKind::Url => {
            if args.baseline {
                let id = db.upsert_baseline_url_for_system(system, value, "manual")?;
                proof {
                    let sid = choose|sid: Seq<char>| #[trigger] system_upserted(db.spec_path(), system@, sid) && url_upserted(db.spec_path(), sid, value@, "manual"@, None, 0, id@);
                    assert(asset_row_added(db.spec_path(), args, sid, id@));
                    assert(system@ == opt_view(args.system).unwrap());
                    assert(asset_add_done(db.spec_path(), args));
                }
                Ok(String::from_str("baseline url added: ").concat(value))
            } else {
                let id = db.upsert_url_for_system(system, value, "manual")?;
                proof {
                    let sid = choose|sid: Seq<char>| #[trigger] system_upserted(db.spec_path(), system@, sid) && url_upserted(db.spec_path(), sid, value@, "manual"@, None, 0, id@);
                    assert(asset_row_added(db.spec_path(), args, sid, id@));
                    assert(system@ == opt_view(args.system).unwrap());
                    assert(asset_add_done(db.spec_path(), args));
                }
                Ok(String::from_str("added url: ").concat(value))
            }
        },
        TargetKind::Port => {
            let port = parse_port(value)?;
            let shown = decimal_string(port as u64);
            if args.baseline {
                let id = db.upsert_baseline_port_for_system(system, opt_str(&args.ip), port, "manual")?;
                proof {
                    let sid = choose|sid: Seq<char>| #[trigger] system_upserted(db.spec_path(), system@, sid) && port_on_ip_upserted(db.spec_path(), sid, opt_view(args.ip), port, "manual"@, id@);
                    assert(asset_row_added(db.spec_path(), args, sid, id@));
                    assert(system@ == opt_view(args.system).unwrap());
                    assert(asset_add_done(db.spec_path(), args));
                }
                Ok(String::from_str("baseline port added: ").concat(shown.as_str()))
            } else {
                let id = db.upsert_port_for_system(system, opt_str(&args.ip), port, "manual")?;
                proof {
                    let sid = choose|sid: Seq<char>| #[trigger] system_upserted(db.spec_path(), system@, sid) && port_on_ip_upserted(db.spec_path(), sid, opt_view(args.ip), port, "manual"@, id@);
                    assert(asset_row_added(db.spec_path(), args, sid, id@));
                    assert(system@ == opt_view(args.system).unwrap());
                    assert(asset_add_done(db.spec_path(), args));
                }
                Ok(String::from_str("added port: ").concat(shown.as_str()))
            }
        },
        TargetKind::Ip => {
            if args.baseline {
                let id = db.upsert_baseline_ip_for_system(system, value, "manual")?;
                proof {
                    let sid = choose|sid: Seq<char>| #[trigger] system_upserted(db.spec_path(), system@, sid) && ip_upserted(db.spec_path(), sid, value@, "manual"@, id@);
                    assert(asset_row_added(db.spec_path(), args, sid, id@));
                    assert(system@ == opt_view(args.system).unwrap());
                    assert(asset_add_done(db.spec_path(), args));
                }
                Ok(String::from_str("baseline ip added: ").concat(value))
            } else {
                let id = db.upsert_ip_for_system(system, value, "manual")?;
                proof {
                    let sid = choose|sid: Seq<char>| #[trigger] system_upserted(db.spec_path(), system@, sid) && ip_upserted(db.spec_path(), sid, value@, "manual"@, id@);
                    assert(asset_row_added(db.spec_path(), args, sid, id@));
                    assert(system@ == opt_view(args.system).unwrap());
                    assert(asset_add_done(db.spec_path(), args));
                }
                Ok(String::from_str("added ip: ").concat(value))
            }
        },
        TargetKind::Name => {
            if args.baseline {
                let id = db.upsert_baseline_domain_for_system(system, value, opt_str(&args.bind_ip))?;
                proof {
                    let sid = choose|sid: Seq<char>| #[trigger] system_upserted(db.spec_path(), system@, sid) && domain_upserted(db.spec_path(), sid, value@, opt_view(args.bind_ip), id@);
                    assert(asset_row_added(db.spec_path(), args, sid, id@));
                    assert(system@ == opt_view(args.system).unwrap());
                    assert(asset_add_done(db.spec_path(), args));
                }
                Ok(String::from_str("baseline name added: ").concat(value))
            } else {
                let id = db.upsert_domain_for_system(system, value, opt_str(&args.bind_ip))?;
                proof {
                    let sid = choose|sid: Seq<char>| #[trigger] system_upserted(db.spec_path(), system@, sid) && domain_upserted(db.spec_path(), sid, value@, opt_view(args.bind_ip), id@);
                    assert(asset_row_added(db.spec_path(), args, sid, id@));
                    assert(system@ == opt_view(args.system).unwrap());
                    assert(asset_add_done(db.spec_path(), args));
                }
                Ok(String::from_str("added name: ").concat(value))
            }
        },
        _ => Err(error::invalid3("--type ", target.as_str(), " is not supported by add")),
    }
}

/// The option rules of an asset import, checked before the file is read.
pub fn check_import_assets(args: &ImportArgs) -> (r: Result<(), WatcherError>)
    ensures
        r is Ok <==> !asset_options_fail(import_target_kind(args.target), crate::db::sql::opt_view(args.system), args.ip is Some, args.bind_ip is Some),
        r matches Err(e) ==> e is Invalid,
{
    let target = TargetKind::from(args.target);
    required_system(opt_str(&args.system), target)?;
    ensure_asset_bind_options(target, opt_str(&args.ip), opt_str(&args.bind_ip))?;
    Ok(())
}

/// How many values an asset import writes: one per port read from the
/// values for ports, the non-blank values otherwise.
pub open spec fn import_count(kind: TargetKind, values: Seq<String>) -> nat {
    if kind is Port {
        match ports_of_values(values) {
            Some(p) => p.len(),
            None => 0,
        }
    } else {
        count_nonblank(values)
    }
}

/// Imports the values of a file (one per line, as `import_values` reads
/// them) as URLs, ports, IPs or names of a system; returns how many were
/// written.
/// An asset import refused before anything is written: not an asset noun,
/// a missing or blank system, a misplaced `--ip` or `--bind-ip`, or a port
/// value that does not parse.
pub open spec fn asset_import_refused(args: ImportArgs, values: Seq<String>) -> bool {
    let kind = import_target_kind(args.target);
    ||| !is_asset_kind(kind)
    ||| asset_options_fail(kind, crate::db::sql::opt_view(args.system), args.ip is Some, args.bind_ip is Some)
    ||| trim(args.system.unwrap()@).len() == 0
    ||| (kind is Port && ports_of_values(values) is None)
}

/// Some non-blank value of a URL, IP or name import has nothing left once
/// the store normalises it.
pub open spec fn asset_import_degenerate(kind: TargetKind, values: Seq<String>) -> bool {
    !(kind is Port) && has_degenerate_value(values, kind is Name)
}

/// What a successful asset import handed to `db`: the values, or the ports
/// read from them, written as manual entries of the system given with
/// `--system`, in a transaction that was committed.
pub open spec fn asset_import_done(db: Seq<char>, args: ImportArgs, values: Seq<String>) -> bool {
    let s = opt_view(args.system).unwrap();
    let baseline = args.baseline;
    match import_target_kind(args.target) {
        TargetKind::Url => values_written(db, s, values, if baseline {
            IMPORT_BASELINE_URLS_SQL@
        } else {
            IMPORT_URLS_SQL@
        }, Some("manual"@), false),
        TargetKind::Port => ports_of_values(values) matches Some(ports) && ports_imported(
            db,
            s,
            opt_view(args.ip),
            ports,
            "manual"@,
            baseline,
        ),
        TargetKind::Ip => values_written(db, s, values, if baseline {
            IMPORT_BASELINE_IPS_SQL@
        } else {
            IMPORT_IPS_SQL@
        }, Some("manual"@), false),
        TargetKind::Name => if baseline {
            values_written(db, s, values, IMPORT_BASELINE_NAMES_SQL@, None, true)
        } else {
            values_written(db, s, values, IMPORT_NAMES_SQL@, spec_trimmed_opt(opt_view(args.bind_ip)), true)
        },
        _ => false,
    }
}

pub fn import_assets(db: &Database, args: &ImportArgs, values: &Vec<String>) -> (r: Result<usize, WatcherError>)
    ensures
        r matches Ok(n) ==> n == import_count(import_target_kind(args.target), values@),
        r matches Ok(_) ==> asset_import_done(db.spec_path(), *args, values@),
        asset_options_fail(import_target_kind(args.target), crate::db::sql::opt_view(args.system), args.ip is Some, args.bind_ip is Some)
            ==> r is Err,
        r matches Err(e) ==> e is Invalid || e.is_storage(),
        import_target_kind(args.target) is Port && ports_of_values(values@) is None ==> r is Err,
        asset_import_refused(*args, values@) ==> (r matches Err(e) && e is Invalid),
        r matches Err(e) ==> e.is_storage() || (e is Invalid && (asset_import_refused(*args, values@)
            || asset_import_degenerate(import_target_kind(args.target), values@))),
{
    check_import_assets(args)?;
    let target = TargetKind::from(args.target);
    let system = match opt_str(&args.system) {
        Some(s) => s,
        None => {
            return Err(error::invalid2("--system is required for --type ", target.as_str()));
        },
    };
    match target {
        TargetKind::Url => {
            if args.baseline {
                db.import_baseline_urls_for_system(system, values, "manual")
            } else {
                db.import_urls_for_system(system, values, "manual")
            }
        },
        TargetKind::Port => {
            let ports = parse_ports(values)?;
            if args.baseline {
                db.import_baseline_ports_for_system(system, opt_str(&args.ip), &ports, "manual")
            } else {
                db.import_ports_for_system(system, opt_str(&args.ip), &ports, "manual")
            }
        },
        TargetKind::Ip => {
            if args.baseline {
                db.import_baseline_ips_for_system(system, values, "manual")
            } else {
                db.import_ips_for_system(system, values, "manual")
            }
        },
        TargetKind::Name => {
            if args.baseline {
                db.import_baseline_names_for_system(system, values)
            } else {
                db.import_names_for_system(system, values, opt_str(&args.bind_ip))
            }
        },
        _ => Err(error::invalid3("--type ", target.as_str(), " is not supported by import")),
    }
}

/// A delete acts on the rows of one system: with `--baseline` or `--system`.
pub open spec fn delete_scoped(args: DeleteArgs) -> bool {
    args.baseline || args.system is Some
}

/// An asset delete that is refused before anything is removed: not an asset
/// noun, a port that does not parse, a scoped delete without a system or
/// with `--ip` on another noun, or `--ip` on an unscoped delete.
pub open spec fn asset_delete_refused(args: DeleteArgs) -> bool {
    let kind = delete_target_kind(args.target);
    ||| !is_asset_kind(kind)
    ||| (kind is Port && cli_port(args.value@) is None)
    ||| if delete_scoped(args) {
        args.system is None || (args.ip is Some && !(kind is Port))
    } else {
        args.ip is Some
    }
}

/// The line an unscoped asset delete prints.
pub open spec fn asset_delete_line(kind: TargetKind, value: Seq<char>) -> Seq<char> {
    match kind {
        TargetKind::Url => "deleted url: "@ + value,
        TargetKind::Port => "deleted port: "@ + decimal(cli_port(value).unwrap() as nat),
        TargetKind::Ip => "deleted ip: "@ + value,
        _ => "deleted name: "@ + value,
    }
}

/// What a successful asset delete prints: the asset for an unscoped
/// delete, the number of rows removed for a scoped one.
pub open spec fn asset_delete_printed(args: DeleteArgs, line: Seq<char>) -> bool {
    if delete_scoped(args) {
        exists|n: nat| line == "deleted baseline rows: "@ + #[trigger] decimal(n)
    } else {
        line == asset_delete_line(delete_target_kind(args.target), args.value@)
    }
}

/// What a successful asset delete handed to `db`: the delete of the value
/// everywhere, or, scoped to the system, the delete that removed the number
/// of rows the line reports.
pub open spec fn asset_delete_done(db: Seq<char>, args: DeleteArgs, line: Seq<char>) -> bool {
    let kind = delete_target_kind(args.target);
    let v = args.value@;
    if delete_scoped(args) {
        let s = opt_view(args.system).unwrap();
        exists|n: nat|
            line == "deleted baseline rows: "@ + #[trigger] decimal(n) && match kind {
                TargetKind::Url => changed_rows(db, (delete_system_value_sql("urls"@, "url"@), seq![text_slot(s), text_slot(v)]), n),
                TargetKind::Port => changed_rows(db, (DELETE_SYSTEM_PORT_SQL@, seq![
                    text_slot(s),
                    Some(Param::Integer(cli_port(v).unwrap() as i64)),
                    opt_slot(opt_view(args.ip)),
                ]), n),
                TargetKind::Ip => changed_rows(db, (delete_system_value_sql("ip_addresses"@, "ip"@), seq![text_slot(s), text_slot(v)]), n),
                _ => changed_rows(db, (delete_system_value_sql("domains"@, "name"@), seq![text_slot(s), text_slot(v)]), n),
            }
    } else {
        match kind {
            TargetKind::Url => written(db, (delete_value_sql("urls"@, "url"@), seq![text_slot(v)])),
            TargetKind::Port => written(db, ("DELETE FROM ports WHERE port = ?1"@, seq![Some(Param::Integer(cli_port(v).unwrap() as i64))])),
            TargetKind::Ip => written(db, (delete_value_sql("ip_addresses"@, "ip"@), seq![text_slot(v)])),
            _ => written(db, (delete_value_sql("domains"@, "name"@), seq![text_slot(v)])),
        }
    }
}

/// Deletes an asset: everywhere by value, or only the rows of one system
/// (`--system`, required with `--baseline`); returns the line to print.
pub fn delete_asset(db: &Database, args: DeleteArgs) -> (r: Result<String, WatcherError>)
    ensures
        args.baseline && args.system is None ==> (r matches Err(e) && e.is_invalid_with(
            "--system is required for --type "@ + kind_name(delete_target_kind(args.target)),
        )),
        !args.baseline && args.system is None && args.ip is Some ==> (r matches Err(e)
            && e.is_invalid_with("--ip requires --system for a scoped port delete"@)),
        args.system is Some && args.ip is Some && !(delete_target_kind(args.target) is Port) ==> (
        r matches Err(e) && e.is_invalid_with("--ip is only supported by --type port"@)),
        r matches Ok(line) ==> asset_delete_printed(args, line@),
        r matches Ok(line) ==> asset_delete_done(db.spec_path(), args, line@),
        (r matches Err(e) && e is Invalid) <==> asset_delete_refused(args),
        r matches Err(e) ==> e is Invalid || e.is_storage(),
{
    let target = TargetKind::from(args.target);
    let scoped = args.baseline || args.system.is_some();
    if args.baseline {
        required_system(opt_str(&args.system), target)?;
    }
    let value = args.value.as_str();
    if !scoped {
        if args.ip.is_some() {
            return Err(error::invalid("--ip requires --system for a scoped port delete"));
        }
        return match target {
            TargetKind::Url => {
                db.delete_url(value)?;
                Ok(String::from_str("deleted url: ").concat(value))
            },
            TargetKind::Port => {
                let port = parse_port(value)?;
                db.delete_port(port)?;
                Ok(String::from_str("deleted port: ").concat(decimal_string(port as u64).as_str()))
            },
            TargetKind::Ip => {
                db.delete_ip(value)?;
                Ok(String::from_str("deleted ip: ").concat(value))
            },
            TargetKind::Name => {
                db.delete_name(value)?;
                Ok(String::from_str("deleted name: ").concat(value))
            },
            _ => Err(error::invalid3("--type ", target.as_str(), " is not supported by delete")),
        };
    }
    let system = required_system(opt_str(&args.system), target)?;
    ensure_asset_bind_options(target, opt_str(&args.ip), None)?;
    let deleted = match target {
        TargetKind::Url => db.delete_url_for_system(system, value)?,
        TargetKind::Port => {
            let port = parse_port(value)?;
            db.delete_port_for_system(system, opt_str(&args.ip), port)?
        },
        TargetKind::Ip => db.delete_ip_for_system(system, value)?,
        TargetKind::Name => db.delete_name_for_system(system, value)?,
        _ => {
            return Err(error::invalid3("--type ", target.as_str(), " is not supported by delete"));
        },
    };
    let line = String::from_str("deleted baseline rows: ").concat(decimal_string(deleted as u64).as_str());
    assert(line@ == "deleted baseline rows: "@ + decimal(deleted as nat));
    Ok(line)
}

} // verus!
