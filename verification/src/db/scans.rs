//! Recording port scans of an IP, fingerprint updates and the alert and
//! vulnerability writers.

use vstd::prelude::*;

use crate::error::WatcherError;
use crate::models::{DomainAsset, ScanSummary};
use crate::port_set::{strictly_increasing, same_ports, sorted_unique, contains_port, lemma_push_contains};
use crate::search::{join_with, views, join_strings};
use crate::text::{decimal, decimal_chars, string_of, str_eq};

use super::helpers::{join_ports, compact_port_list};
use super::sql::{self, Link, committed, ran, handed_all, lemma_handed_push, SqlValue, text_of, int_of, opt_text_of, opt_text_ok, Exchange, Param, Template, fits, text_slot, opt_slot, opt_str, written};
use super::assets::{ip_upserted, url_upserted};
use super::types::Database;

verus! {

/// A port row of an IP as it stood before a scan.
#[derive(Debug, Clone)]
pub struct ExistingPort {
    pub id: String,
    pub port: u16,
    pub state: String,
    pub is_baseline: bool,
}

/// What a scan of one IP changes in its port rows and reports.
#[derive(Debug, Clone)]
pub struct IpScanPlan {
    /// Rows whose state is written, with whether the port is now open.
    pub updates: Vec<(String, bool)>,
    /// Open ports that had no row, each once, in increasing order.
    pub inserts: Vec<u16>,
    /// Rows removed: ports found closed by a complete scan and not baseline.
    pub deletes: Vec<String>,
    /// Ports that became open, in increasing order.
    pub opened: Vec<u16>,
    /// Ports that were open and were found closed, in increasing order.
    pub closed: Vec<u16>,
}

/// A row's state is written: its port was found open, or the scan covered
/// every port.
pub open spec fn scan_touches(e: ExistingPort, open: Seq<u16>, complete: bool) -> bool {
    open.contains(e.port) || complete
}

/// The state writes of a scan, row by row.
pub open spec fn planned_updates(ex: Seq<ExistingPort>, open: Seq<u16>, complete: bool) -> Seq<
    (Seq<char>, bool),
>
    decreases ex.len(),
{
    if ex.len() == 0 {
        Seq::empty()
    } else {
        let prev = planned_updates(ex.drop_last(), open, complete);
        let e = ex.last();
        if scan_touches(e, open, complete) {
            prev.push((e.id@, open.contains(e.port)))
        } else {
            prev
        }
    }
}

/// The rows a scan removes, in row order.
pub open spec fn planned_deletes(ex: Seq<ExistingPort>, open: Seq<u16>, complete: bool) -> Seq<
    Seq<char>,
>
    decreases ex.len(),
{
    if ex.len() == 0 {
        Seq::empty()
    } else {
        let prev = planned_deletes(ex.drop_last(), open, complete);
        let e = ex.last();
        if complete && !open.contains(e.port) && !e.is_baseline {
            prev.push(e.id@)
        } else {
            prev
        }
    }
}

/// Some row holds port `p`.
pub open spec fn has_row(ex: Seq<ExistingPort>, p: u16) -> bool {
    exists|i: int| 0 <= i < ex.len() && ex[i].port == p
}

/// Port `p` became open: it was found open and either had no row or had a
/// row whose state was not `open`.
pub open spec fn became_open(ex: Seq<ExistingPort>, open: Seq<u16>, p: u16) -> bool {
    open.contains(p) && (!has_row(ex, p) || exists|i: int|
        0 <= i < ex.len() && ex[i].port == p && ex[i].state@ != "open"@)
}

/// Port `p` was open and a complete scan found it closed.
pub open spec fn became_closed(ex: Seq<ExistingPort>, open: Seq<u16>, complete: bool, p: u16) -> bool {
    complete && !open.contains(p) && exists|i: int|
        0 <= i < ex.len() && ex[i].port == p && ex[i].state@ == "open"@
}

/// Some row of port `p` was not `open` while the scan found `p` open.
pub open spec fn opened_by_row(ex: Seq<ExistingPort>, open: Seq<u16>, p: u16) -> bool {
    open.contains(p) && exists|i: int| 0 <= i < ex.len() && ex[i].port == p && ex[i].state@ != "open"@
}

/// How the row predicates grow when one row is added.
proof fn lemma_rows_push(prev: Seq<ExistingPort>, e: ExistingPort, open: Seq<u16>, complete: bool)
    ensures
        forall|p: u16| #[trigger] has_row(prev.push(e), p) <==> (has_row(prev, p) || p == e.port),
        forall|p: u16| #[trigger] opened_by_row(prev.push(e), open, p) <==> (opened_by_row(prev, open, p)
            || (p == e.port && open.contains(p) && e.state@ != "open"@)),
        forall|p: u16| #[trigger] became_closed(prev.push(e), open, complete, p) <==> (became_closed(prev, open, complete, p)
            || (p == e.port && complete && !open.contains(p) && e.state@ == "open"@)),
{
    let t = prev.push(e);
    assert forall|p: u16| #[trigger] has_row(t, p) <==> (has_row(prev, p) || p == e.port) by {
        if has_row(t, p) {
            let m = choose|m: int| 0 <= m < t.len() && t[m].port == p;
            if m < prev.len() {
                assert(prev[m].port == p);
            }
        }
        if has_row(prev, p) {
            let m = choose|m: int| 0 <= m < prev.len() && prev[m].port == p;
            assert(t[m].port == p);
        }
        if p == e.port {
            assert(t[prev.len() as int].port == p);
        }
    }
    assert forall|p: u16| #[trigger] opened_by_row(t, open, p) <==> (opened_by_row(prev, open, p)
        || (p == e.port && open.contains(p) && e.state@ != "open"@)) by {
        if opened_by_row(t, open, p) {
            let m = choose|m: int| 0 <= m < t.len() && t[m].port == p && t[m].state@ != "open"@;
            if m < prev.len() {
                assert(prev[m] == t[m]);
            }
        }
        if opened_by_row(prev, open, p) {
            let m = choose|m: int| 0 <= m < prev.len() && prev[m].port == p && prev[m].state@ != "open"@;
            assert(t[m] == prev[m]);
        }
        if p == e.port && open.contains(p) && e.state@ != "open"@ {
            assert(t[prev.len() as int] == e);
        }
    }
    assert forall|p: u16| #[trigger] became_closed(t, open, complete, p) <==> (became_closed(prev, open, complete, p)
        || (p == e.port && complete && !open.contains(p) && e.state@ == "open"@)) by {
        if became_closed(t, open, complete, p) {
            let m = choose|m: int| 0 <= m < t.len() && t[m].port == p && t[m].state@ == "open"@;
            if m < prev.len() {
                assert(prev[m] == t[m]);
            }
        }
        if became_closed(prev, open, complete, p) {
            let m = choose|m: int| 0 <= m < prev.len() && prev[m].port == p && prev[m].state@ == "open"@;
            assert(t[m] == prev[m]);
        }
        if p == e.port && complete && !open.contains(p) && e.state@ == "open"@ {
            assert(t[prev.len() as int] == e);
        }
    }
}

/// `plan` is what a scan that found `open` changes in the rows `ex`.
pub open spec fn is_scan_plan(
    plan: IpScanPlan,
    ex: Seq<ExistingPort>,
    open: Seq<u16>,
    complete: bool,
) -> bool {
    &&& plan.updates@.map_values(|u: (String, bool)| (u.0@, u.1)) == planned_updates(ex, open, complete)
    &&& views(plan.deletes@) == planned_deletes(ex, open, complete)
    &&& strictly_increasing(plan.inserts@)
    &&& forall|p: u16| plan.inserts@.contains(p) <==> (open.contains(p) && !has_row(ex, p))
    &&& strictly_increasing(plan.opened@)
    &&& forall|p: u16| plan.opened@.contains(p) <==> became_open(ex, open, p)
    &&& strictly_increasing(plan.closed@)
    &&& forall|p: u16| plan.closed@.contains(p) <==> became_closed(ex, open, complete, p)
}

/// Works out what a scan of one IP changes: which rows get a new state,
/// which open ports get a row, which rows go, and which ports opened or
/// closed. A scan that did not cover every port leaves the rows of ports it
/// did not find open alone.
pub fn plan_ip_scan(existing: &[ExistingPort], open_ports: &[u16], scan_complete: bool) -> (plan:
    IpScanPlan)
    ensures
        is_scan_plan(plan, existing@, open_ports@, scan_complete),
{
    let ghost ex = existing@;
    let ghost open = open_ports@;
    let mut updates: Vec<(String, bool)> = Vec::new();
    let mut deletes: Vec<String> = Vec::new();
    let mut opened_all: Vec<u16> = Vec::new();
    let mut closed_raw: Vec<u16> = Vec::new();
    let mut present: Vec<u16> = Vec::new();
    let mut i: usize = 0;
    while i < existing.len()
        invariant
            i <= ex.len(),
            ex == existing@,
            open == open_ports@,
            updates@.map_values(|u: (String, bool)| (u.0@, u.1)) == planned_updates(
                ex.take(i as int),
                open,
                scan_complete,
            ),
            views(deletes@) == planned_deletes(ex.take(i as int), open, scan_complete),
            forall|p: u16| #[trigger] present@.contains(p) <==> has_row(ex.take(i as int), p),
            forall|p: u16| #[trigger] opened_all@.contains(p) <==> opened_by_row(ex.take(i as int), open, p),
            forall|p: u16| #[trigger] closed_raw@.contains(p) <==> became_closed(ex.take(i as int), open, scan_complete, p),
        decreases existing.len() - i,
    {
        let e = &existing[i];
        let ghost prev = ex.take(i as int);
        let ghost t = ex.take(i + 1);
        proof {
            assert(t =~= prev.push(ex[i as int]));
            assert(t.drop_last() =~= prev);
            lemma_rows_push(prev, ex[i as int], open, scan_complete);
        }
        let is_open = contains_port(open_ports, e.port);
        let was_open = str_eq(e.state.as_str(), "open");
        let ghost old_updates = updates@;
        let ghost old_deletes = deletes@;
        let ghost old_opened = opened_all@;
        let ghost old_closed = closed_raw@;
        let ghost old_present = present@;
        if is_open || scan_complete {
            updates.push((e.id.clone(), is_open));
            proof {
                assert(updates@.map_values(|u: (String, bool)| (u.0@, u.1)) =~= old_updates.map_values(
                    |u: (String, bool)| (u.0@, u.1),
                ).push((e.id@, is_open)));
            }
            if is_open && !was_open {
                opened_all.push(e.port);
            } else if !is_open && was_open {
                closed_raw.push(e.port);
            }
            if !is_open && !e.is_baseline {
                deletes.push(e.id.clone());
                proof {
                    assert(views(deletes@) =~= views(old_deletes).push(e.id@));
                }
            }
        }
        present.push(e.port);
        proof {
            lemma_push_contains(old_present, e.port);
            lemma_push_contains(old_opened, e.port);
            lemma_push_contains(old_closed, e.port);
        }
        i = i + 1;
    }
    proof {
        assert(ex.take(ex.len() as int) =~= ex);
    }
    let distinct_open = sorted_unique(open_ports);
    let mut inserts: Vec<u16> = Vec::new();
    let mut k: usize = 0;
    while k < distinct_open.len()
        invariant
            k <= distinct_open@.len(),
            ex == existing@,
            open == open_ports@,
            strictly_increasing(distinct_open@),
            same_ports(distinct_open@, open),
            forall|p: u16| #[trigger] present@.contains(p) <==> has_row(ex, p),
            strictly_increasing(inserts@),
            forall|a: int, b: int|
                0 <= a < inserts@.len() && k <= b < distinct_open@.len() ==> inserts@[a]
                    < distinct_open@[b],
            forall|p: u16| #[trigger] inserts@.contains(p) <==> (distinct_open@.take(k as int).contains(p)
                && !has_row(ex, p)),
        decreases distinct_open.len() - k,
    {
        let p = distinct_open[k];
        let ghost before = inserts@;
        proof {
            assert(distinct_open@.take(k + 1) =~= distinct_open@.take(k as int).push(p));
            lemma_push_contains(distinct_open@.take(k as int), p);
            lemma_push_contains(before, p);
        }
        if !contains_port(&present, p) {
            inserts.push(p);
        }
        k = k + 1;
    }
    proof {
        assert(distinct_open@.take(distinct_open@.len() as int) =~= distinct_open@);
    }
    let mut j: usize = 0;
    while j < inserts.len()
        invariant
            j <= inserts@.len(),
            forall|p: u16| #[trigger] opened_all@.contains(p) <==> (opened_by_row(ex, open, p)
                || inserts@.take(j as int).contains(p)),
        decreases inserts.len() - j,
    {
        let ghost before = opened_all@;
        proof {
            assert(inserts@.take(j + 1) =~= inserts@.take(j as int).push(inserts@[j as int]));
            lemma_push_contains(inserts@.take(j as int), inserts@[j as int]);
            lemma_push_contains(before, inserts@[j as int]);
        }
        opened_all.push(inserts[j]);
        j = j + 1;
    }
    proof {
        assert(inserts@.take(inserts@.len() as int) =~= inserts@);
        assert forall|p: u16| #[trigger] opened_all@.contains(p) <==> became_open(ex, open, p) by {
            if inserts@.contains(p) {
                assert(distinct_open@.contains(p));
            }
            if open.contains(p) && !has_row(ex, p) {
                assert(distinct_open@.contains(p));
            }
        }
    }
    let opened = sorted_unique(&opened_all);
    let closed = sorted_unique(&closed_raw);
    IpScanPlan { updates, inserts, deletes, opened, closed }
}

/// Each row that a scan removes is a row that is not baseline, whose port the
/// scan did not find open, and the scan covered every port.
proof fn lemma_planned_delete_row(ex: Seq<ExistingPort>, open: Seq<u16>, complete: bool, k: int)
    requires
        0 <= k < planned_deletes(ex, open, complete).len(),
    ensures
        exists|i: int|
            0 <= i < ex.len() && ex[i].id@ == planned_deletes(ex, open, complete)[k]
                && !ex[i].is_baseline && !open.contains(ex[i].port) && complete,
    decreases ex.len(),
{
    let prev = ex.drop_last();
    let e = ex.last();
    let dp = planned_deletes(prev, open, complete);
    if k < dp.len() {
        lemma_planned_delete_row(prev, open, complete, k);
        let i = choose|i: int|
            0 <= i < prev.len() && prev[i].id@ == dp[k] && !prev[i].is_baseline
                && !open.contains(prev[i].port) && complete;
        assert(ex[i] == prev[i]);
    } else {
        assert(complete && !open.contains(e.port) && !e.is_baseline);
        assert(ex[ex.len() - 1] == e);
    }
}

/// A scan that did not cover every port removes no row.
proof fn lemma_partial_scan_deletes_nothing(ex: Seq<ExistingPort>, open: Seq<u16>)
    ensures
        planned_deletes(ex, open, false).len() == 0,
    decreases ex.len(),
{
    if ex.len() > 0 {
        lemma_partial_scan_deletes_nothing(ex.drop_last(), open);
    }
}

/// What every scan plan keeps: a baseline row is never removed, nor the row of
/// a port found open; a scan that did not cover every port removes no row and
/// reports no port closed; and no port is reported both opened and closed.
pub proof fn lemma_scan_plan_keeps_baseline(
    plan: IpScanPlan,
    ex: Seq<ExistingPort>,
    open: Seq<u16>,
    complete: bool,
)
    requires
        is_scan_plan(plan, ex, open, complete),
    ensures
        forall|k: int|
            0 <= k < plan.deletes@.len() ==> exists|i: int|
                0 <= i < ex.len() && ex[i].id@ == (#[trigger] plan.deletes@[k])@
                    && !ex[i].is_baseline && !open.contains(ex[i].port),
        !complete ==> plan.deletes@.len() == 0 && plan.closed@.len() == 0,
        forall|p: u16| !(plan.opened@.contains(p) && plan.closed@.contains(p)),
{
    let d = planned_deletes(ex, open, complete);
    assert(views(plan.deletes@) == d);
    assert forall|k: int| 0 <= k < plan.deletes@.len() implies exists|i: int|
        0 <= i < ex.len() && ex[i].id@ == (#[trigger] plan.deletes@[k])@ && !ex[i].is_baseline
            && !open.contains(ex[i].port) by {
        assert(views(plan.deletes@)[k] == plan.deletes@[k]@);
        assert(d[k] == plan.deletes@[k]@);
        lemma_planned_delete_row(ex, open, complete, k);
        let i = choose|i: int|
            0 <= i < ex.len() && ex[i].id@ == d[k] && !ex[i].is_baseline
                && !open.contains(ex[i].port) && complete;
        assert(ex[i].id@ == plan.deletes@[k]@);
    }
    assert forall|p: u16| !(plan.opened@.contains(p) && plan.closed@.contains(p)) by {
        if plan.opened@.contains(p) {
            assert(became_open(ex, open, p));
        }
        if plan.closed@.contains(p) {
            assert(became_closed(ex, open, complete, p));
        }
    }
    if !complete {
        lemma_partial_scan_deletes_nothing(ex, open);
        assert(views(plan.deletes@).len() == plan.deletes@.len());
        if plan.closed@.len() > 0 {
            assert(plan.closed@.contains(plan.closed@[0]));
        }
    }
}

/// The alert details of a port change: `{"count":N,"ports":[p,...]}`.
pub open spec fn port_change_text(ports: Seq<u16>) -> Seq<char> {
    "{\"count\":"@ + decimal(ports.len()) + ",\"ports\":["@ + join_ports(ports) + "]}"@
}

/// Writes [`port_change_text`].
pub fn port_change_details(ports: &[u16]) -> (s: String)
    ensures
        s@ == port_change_text(ports@),
{
    let count = string_of(&decimal_chars(ports.len() as u64));
    let list = match compact_port_list(ports) {
        Some(l) => l,
        None => String::new(),
    };
    proof {
        if ports@.len() == 0 {
            assert(join_ports(ports@) =~= Seq::<char>::empty());
        }
    }
    String::from_str("{\"count\":").concat(count.as_str()).concat(",\"ports\":[").concat(
        list.as_str(),
    ).concat("]}")
}

/// An optional text parameter.
fn opt_param(value: Option<&str>) -> (v: SqlValue)
    ensures
        match value {
            Some(t) => text_of(v) == Some(t@),
            None => v is Null,
        },
{
    match value {
        Some(t) => sql::text_param(t),
        None => SqlValue::Null,
    }
}

/// The statement that inserts an alert row.
pub const ALERT_SQL: &'static str = "INSERT INTO alerts (id, batch_id, system_id, kind, severity, subject, old_value, new_value, details, created_at)
         VALUES (?1, ?2, ?3, ?4, ?5, ?6, ?7, ?8, ?9, ?10)";

/// Each exchange of the tape fits the template at the same position.
pub open spec fn fits_each(db: Seq<char>, tape: Seq<Exchange>, ts: Seq<Template>) -> bool {
    &&& tape.len() == ts.len()
    &&& forall|i: int| 0 <= i < ts.len() ==> (#[trigger] tape[i]).on() == db && fits(tape[i].handed(), ts[i])
}

/// The alert insert of the given fields.
pub open spec fn alert_template(
    batch_id: Seq<char>,
    system_id: Option<Seq<char>>,
    kind: Seq<char>,
    severity: Seq<char>,
    subject: Seq<char>,
    old_value: Option<Seq<char>>,
    new_value: Option<Seq<char>>,
    details: Option<Seq<char>>,
) -> Template {
    (ALERT_SQL@, seq![
        None,
        text_slot(batch_id),
        opt_slot(system_id),
        text_slot(kind),
        text_slot(severity),
        text_slot(subject),
        opt_slot(old_value),
        opt_slot(new_value),
        opt_slot(details),
        None,
    ])
}

/// The parameters of one alert row, with a fresh id and the current time.
#[allow(clippy::too_many_arguments)]
fn alert_params(
    batch_id: &str,
    system_id: Option<&str>,
    kind: &str,
    severity: &str,
    subject: &str,
    old_value: Option<&str>,
    new_value: Option<&str>,
    details: Option<&str>,
) -> (params: Vec<SqlValue>)
    ensures
        fits(sql::statement_of(ALERT_SQL@, params@), alert_template(batch_id@, opt_str(system_id), kind@, severity@,
            subject@, opt_str(old_value), opt_str(new_value), opt_str(details))),
{
    let mut params: Vec<SqlValue> = Vec::new();
    params.push(SqlValue::Text(sql::new_id()));
    params.push(sql::text_param(batch_id));
    params.push(opt_param(system_id));
    params.push(sql::text_param(kind));
    params.push(sql::text_param(severity));
    params.push(sql::text_param(subject));
    params.push(opt_param(old_value));
    params.push(opt_param(new_value));
    params.push(opt_param(details));
    params.push(SqlValue::Text(sql::now()));
    params
}

/// Inserts one alert row on an open connection, with a fresh id and the
/// current time.
#[allow(clippy::too_many_arguments)]
pub fn insert_alert(
    conn: &Link,
    batch_id: &str,
    system_id: Option<&str>,
    kind: &str,
    severity: &str,
    subject: &str,
    old_value: Option<&str>,
    new_value: Option<&str>,
    details: Option<&str>,
) -> (r: Result<Exchange, WatcherError>)
    ensures
        r matches Ok(x) ==> x.on() == conn.db() && fits(x.handed(), alert_template(batch_id@, opt_str(system_id), kind@, severity@,
            subject@, opt_str(old_value), opt_str(new_value), opt_str(details))),
        r matches Err(e) ==> e is Database,
{
    let params = alert_params(batch_id, system_id, kind, severity, subject, old_value, new_value, details);
    sql::perform(conn, ALERT_SQL, &params)
}

/// A row `id, port, state, is_baseline` decodes as `p`.
pub open spec fn existing_from_row(row: Seq<SqlValue>, p: ExistingPort) -> bool {
    &&& row.len() >= 4
    &&& text_of(row[0]) == Some(p.id@)
    &&& int_of(row[1]) is Some && p.port == int_of(row[1]).unwrap() as u16
    &&& text_of(row[2]) == Some(p.state@)
    &&& int_of(row[3]) is Some && p.is_baseline == (int_of(row[3]).unwrap() == 1)
}

/// The rows decode, one for one, as the port rows `ex`.
pub open spec fn existing_rows(rows: Seq<Vec<SqlValue>>, ex: Seq<ExistingPort>) -> bool {
    &&& rows.len() == ex.len()
    &&& forall|i: int| 0 <= i < ex.len() ==> existing_from_row(rows[i]@, #[trigger] ex[i])
}

/// The query that reads the port rows of an IP of a system.
pub const PORT_ROWS_SQL: &'static str = "SELECT id, port, state, is_baseline FROM ports WHERE system_id = ?1 AND ip_id = ?2";

/// The statement that writes the state of a port row.
pub const PORT_STATE_SQL: &'static str = "UPDATE ports SET state = ?1, last_seen = ?2 WHERE id = ?3";

/// The statement that inserts a port found open by a scan.
pub const SCANNED_PORT_SQL: &'static str = "INSERT INTO ports (id, system_id, ip_id, port, source, state, is_baseline, first_seen, last_seen)
                 VALUES (?1, ?2, ?3, ?4, 'scan', 'open', 0, ?5, ?5)";

/// The statement that removes a port row.
pub const DROP_PORT_SQL: &'static str = "DELETE FROM ports WHERE id = ?1";

/// The statement that writes or replaces the scan summary of an IP.
pub const SCAN_SUMMARY_SQL: &'static str = "INSERT INTO scan_summaries (
                id, batch_id, system_id, ip_id, ip, probed_ports, open_count,
                opened_ports, closed_ports, created_at
             ) VALUES (?1, ?2, ?3, ?4, ?5, ?6, ?7, ?8, ?9, ?10)
             ON CONFLICT(batch_id, ip_id, ip) DO UPDATE SET
                probed_ports = excluded.probed_ports,
                open_count = excluded.open_count,
                opened_ports = excluded.opened_ports,
                closed_ports = excluded.closed_ports,
                created_at = excluded.created_at";

/// The query of the scan summaries of a batch, ordered by IP.
pub const SCAN_SUMMARIES_SQL: &'static str = "SELECT id, batch_id, system_id, ip_id, ip, probed_ports, open_count,
                    opened_ports, closed_ports, created_at
             FROM scan_summaries
             WHERE batch_id = ?1
             ORDER BY ip";

/// The statement that writes the quick fingerprint of a port.
pub const PORT_FINGERPRINT_SQL: &'static str = "UPDATE ports SET service = ?1, fingerprint = ?2, is_web = ?3, scheme = ?4, last_seen = ?5 WHERE id = ?6";

/// The statement that writes the detailed fingerprint of a port.
pub const PORT_DETAILED_FINGERPRINT_SQL: &'static str = "UPDATE ports SET service = COALESCE(?1, service), fingerprint = COALESCE(?2, fingerprint), last_seen = ?3 WHERE id = ?4";

/// The statement that records a vulnerability finding unless it is known.
pub const VULNERABILITY_SQL: &'static str = "INSERT OR IGNORE INTO vulnerabilities (id, batch_id, system_id, url, poc, severity, evidence, created_at)
             VALUES (?1, ?2, ?3, ?4, ?5, ?6, ?7, ?8)";

/// The statement that stores the addresses a domain resolves to.
pub const DOMAIN_RESOLVED_SQL: &'static str = "UPDATE domains SET bind_ip = ?1, last_resolved_ips = ?1, updated_at = ?2 WHERE id = ?3";

/// The stored bind IP of a domain, empty when there is none.
pub open spec fn bind_text(domain: DomainAsset) -> Seq<char> {
    match domain.bind_ip {
        Some(b) => b@,
        None => Seq::empty(),
    }
}

/// The address was recorded as a `resolved` IP of the system.
pub open spec fn ip_resolved(db: Seq<char>, system_id: Seq<char>, ip: Seq<char>) -> bool {
    exists|id: Seq<char>| #[trigger] ip_upserted(db, system_id, ip, "resolved"@, id)
}

/// A new resolution of a domain was recorded: the comma-joined addresses
/// were stored as its bind IP, each address was recorded as a `resolved` IP
/// of its system, and a `medium` `dns_change` alert was raised when the
/// stored list differs.
pub open spec fn resolution_recorded(db: Seq<char>, batch_id: Seq<char>, domain: DomainAsset, ips: Seq<Seq<char>>) -> bool {
    let joined = join_with(ips, ","@);
    let old = bind_text(domain);
    &&& written(db, (DOMAIN_RESOLVED_SQL@, seq![text_slot(joined), None, text_slot(domain.id@)]))
    &&& forall|k: int| 0 <= k < ips.len() ==> #[trigger] ip_resolved(db, domain.system_id@, ips[k])
    &&& old != joined ==> written(db, 
        alert_template(
            batch_id,
            Some(domain.system_id@),
            "dns_change"@,
            "medium"@,
            domain.name@,
            if old.len() == 0 { None } else { Some(old) },
            Some(joined),
            None,
        ),
    )
}

/// The state write of one row.
pub open spec fn port_state_template(id: Seq<char>, open: bool) -> Template {
    (PORT_STATE_SQL@, seq![text_slot(if open { "open"@ } else { "closed"@ }), None, text_slot(id)])
}

/// The insert of one port found open.
pub open spec fn scanned_port_template(system_id: Seq<char>, ip_id: Seq<char>, port: u16) -> Template {
    (SCANNED_PORT_SQL@, seq![None, text_slot(system_id), text_slot(ip_id), Some(Param::Integer(port as i64)), None])
}

/// The removal of one row.
pub open spec fn drop_port_template(id: Seq<char>) -> Template {
    (DROP_PORT_SQL@, seq![text_slot(id)])
}

/// The comma-separated ports, or nothing for none.
pub open spec fn compact(ports: Seq<u16>) -> Option<Seq<char>> {
    if ports.len() > 0 {
        Some(join_ports(ports))
    } else {
        None
    }
}

/// The statements a scan of one IP writes once the port rows are read and
/// the plan is made, listed as the scan runs them: the state writes, the inserts, the removals,
/// the `high` alert for opened ports and the `medium` alert for closed
/// ones when there are any, and the scan summary.
pub open spec fn scan_writes(
    plan: IpScanPlan,
    batch_id: Seq<char>,
    system_id: Seq<char>,
    ip_id: Seq<char>,
    ip: Seq<char>,
    probed_ports: u32,
    open_count: int,
) -> Seq<Template> {
    let ups = plan.updates@.map_values(|u: (String, bool)| port_state_template(u.0@, u.1));
    let ins = plan.inserts@.map_values(|p: u16| scanned_port_template(system_id, ip_id, p));
    let dels = plan.deletes@.map_values(|d: String| drop_port_template(d@));
    let opened = if plan.opened@.len() > 0 {
        seq![alert_template(batch_id, Some(system_id), "port_change"@, "high"@, ip, Some("closed/unknown"@),
            Some("open"@), Some(port_change_text(plan.opened@)))]
    } else {
        Seq::empty()
    };
    let closed = if plan.closed@.len() > 0 {
        seq![alert_template(batch_id, Some(system_id), "port_change"@, "medium"@, ip, Some("open"@),
            Some("closed"@), Some(port_change_text(plan.closed@)))]
    } else {
        Seq::empty()
    };
    let summary = (SCAN_SUMMARY_SQL@, seq![
        None,
        text_slot(batch_id),
        text_slot(system_id),
        text_slot(ip_id),
        text_slot(ip),
        Some(Param::Integer(probed_ports as i64)),
        Some(Param::Integer(open_count as i64)),
        opt_slot(compact(plan.opened@)),
        opt_slot(compact(plan.closed@)),
        None,
    ]);
    ups + ins + dels + opened + closed + seq![summary]
}

/// What a recorded scan of one IP ran on the database file `db`: a
/// transaction that was committed after running exactly the statements of
/// the tape, in its order: the read of the IP's port rows, then the writes
/// [`scan_writes`] gives for the plan [`plan_ip_scan`] makes of the rows
/// that came back.
pub open spec fn ip_scan_recorded(db: Seq<char>, 
    tape: Seq<Exchange>,
    batch_id: Seq<char>,
    system_id: Seq<char>,
    ip_id: Seq<char>,
    ip: Seq<char>,
    open_ports: Seq<u16>,
    probed_ports: u32,
    scan_complete: bool,
) -> bool {
    &&& tape.len() >= 1
    &&& ran(db, "BEGIN"@)
    &&& committed(db, handed_all(tape))
    &&& exists|ex: Seq<ExistingPort>, plan: IpScanPlan|
        #[trigger] existing_rows(tape[0].reply(), ex) && #[trigger] is_scan_plan(plan, ex, open_ports, scan_complete)
            && fits_each(db,
            tape,
            seq![(PORT_ROWS_SQL@, seq![text_slot(system_id), text_slot(ip_id)])] + scan_writes(
                plan,
                batch_id,
                system_id,
                ip_id,
                ip,
                probed_ports,
                open_ports.len() as int,
            ),
        )
}

/// Appending an exchange that fits its template keeps the tape fitting.
proof fn lemma_fits_push(db: Seq<char>, tape: Seq<Exchange>, ts: Seq<Template>, x: Exchange, t: Template)
    requires
        fits_each(db, tape, ts),
        x.on() == db,
        fits(x.handed(), t),
    ensures
        fits_each(db, tape.push(x), ts.push(t)),
{
    assert forall|i: int| 0 <= i < ts.push(t).len() implies (#[trigger] tape.push(x)[i]).on() == db && fits(tape.push(x)[i].handed(), ts.push(t)[i]) by {
        if i < ts.len() {
            assert(tape.push(x)[i] == tape[i]);
            assert(ts.push(t)[i] == ts[i]);
        }
    }
}

/// Decodes one `id, port, state, is_baseline` row.
pub fn map_existing_port(row: &[SqlValue]) -> (r: Result<ExistingPort, WatcherError>)
    ensures
        r matches Err(e) ==> e is Decode,
        r matches Ok(p) ==> existing_from_row(row@, p),
{
    let id = sql::get_text(row, 0)?;
    let port = sql::get_int(row, 1)?;
    let state = sql::get_text(row, 2)?;
    let flag = sql::get_int(row, 3)?;
    Ok(ExistingPort { id, port: port as u16, state, is_baseline: flag == 1 })
}

/// A result row decodes as a scan summary.
pub open spec fn summary_from_row(row: Seq<SqlValue>, s: ScanSummary) -> bool {
    &&& row.len() >= 10
    &&& text_of(row[0]) == Some(s.id@)
    &&& text_of(row[1]) == Some(s.batch_id@)
    &&& opt_text_ok(row[2]) && opt_text_of(row[2]) == sql::opt_view(s.system_id)
    &&& opt_text_ok(row[3]) && opt_text_of(row[3]) == sql::opt_view(s.ip_id)
    &&& text_of(row[4]) == Some(s.ip@)
    &&& int_of(row[5]) == Some(s.probed_ports)
    &&& int_of(row[6]) == Some(s.open_count)
    &&& opt_text_ok(row[7]) && opt_text_of(row[7]) == sql::opt_view(s.opened_ports)
    &&& opt_text_ok(row[8]) && opt_text_of(row[8]) == sql::opt_view(s.closed_ports)
    &&& text_of(row[9]) == Some(s.created_at@)
}

/// Decodes one scan summary row.
pub fn map_scan_summary(row: &[SqlValue]) -> (r: Result<ScanSummary, WatcherError>)
    ensures
        r matches Err(e) ==> e is Decode,
        r matches Ok(s) ==> summary_from_row(row@, s),
{
    let id = sql::get_text(row, 0)?;
    let batch_id = sql::get_text(row, 1)?;
    let system_id = sql::get_opt_text(row, 2)?;
    let ip_id = sql::get_opt_text(row, 3)?;
    let ip = sql::get_text(row, 4)?;
    let probed_ports = sql::get_int(row, 5)?;
    let open_count = sql::get_int(row, 6)?;
    let opened_ports = sql::get_opt_text(row, 7)?;
    let closed_ports = sql::get_opt_text(row, 8)?;
    let created_at = sql::get_text(row, 9)?;
    Ok(ScanSummary {
        id,
        batch_id,
        system_id,
        ip_id,
        ip,
        probed_ports,
        open_count,
        opened_ports,
        closed_ports,
        created_at,
    })
}

impl Database {
    /// Records the scan of one IP of a system in one transaction: port
    /// states are written as [`plan_ip_scan`] works them out, new open ports
    /// get a `scan` row, closed non-baseline rows go, a `port_change` alert
    /// is raised for opened ports (`high`) and for closed ones (`medium`),
    /// and the batch's scan summary of the IP is written or replaced.
    #[allow(clippy::too_many_arguments)]
    #[verifier::spinoff_prover]
    #[verifier::rlimit(40)]
    pub fn record_ip_scan(
        &self,
        batch_id: &str,
        system_id: &str,
        ip_id: &str,
        ip: &str,
        open_ports: &[u16],
        probed_ports: u32,
        scan_complete: bool,
    ) -> (r: Result<(), WatcherError>)
        requires
            open_ports@.len() <= i64::MAX,
        ensures
            r matches Ok(()) ==> exists|tape: Seq<Exchange>|
                #[trigger] ip_scan_recorded(self.spec_path(), 
                    tape,
                    batch_id@,
                    system_id@,
                    ip_id@,
                    ip@,
                    open_ports@,
                    probed_ports,
                    scan_complete,
                ),
            r matches Err(e) ==> e.is_storage(),
    {
        let conn = self.conn()?;
        let mut tx = sql::begin(conn)?;
        let scanned_at = sql::now();
        let mut params: Vec<SqlValue> = Vec::new();
        params.push(sql::text_param(system_id));
        params.push(sql::text_param(ip_id));
        let read = sql::tx_ask(&mut tx, PORT_ROWS_SQL, &params)?;
        let ghost head: Seq<Template> = seq![(PORT_ROWS_SQL@, seq![text_slot(system_id@), text_slot(ip_id@)])];
        let ghost mut tape: Seq<Exchange> = seq![read];
        let ghost mut ts: Seq<Template> = head;
        assert(fits_each(self.spec_path(), tape, ts)) by {
            assert(fits(tape[0].handed(), ts[0]));
        }
        assert(tx.log() == handed_all(tape)) by {
            assert(handed_all(tape) =~= seq![read.handed()]);
            assert(tx.log() =~= seq![read.handed()]);
        }
        let rows = read.rows();
        let mut existing: Vec<ExistingPort> = Vec::new();
        let mut i: usize = 0;
        while i < rows.len()
            invariant
                tx.db() == self.spec_path(),
                tx.log() == handed_all(tape),
                fits_each(self.spec_path(), tape, ts),
                tape.len() >= 1,
                tape[0] == read,
                i <= rows@.len(),
                rows@ == read.reply(),
                ts == head,
                existing@.len() == i,
                forall|k: int| 0 <= k < i ==> existing_from_row(rows@[k]@, #[trigger] existing@[k]),
            decreases rows.len() - i,
        {
            existing.push(map_existing_port(&rows[i])?);
            i = i + 1;
        }
        assert(existing_rows(read.reply(), existing@));
        let plan = plan_ip_scan(&existing, open_ports, scan_complete);
        let ghost writes = scan_writes(plan, batch_id@, system_id@, ip_id@, ip@, probed_ports, open_ports@.len() as int);
        let ghost ups = plan.updates@.map_values(|u: (String, bool)| port_state_template(u.0@, u.1));
        let ghost ins = plan.inserts@.map_values(|p: u16| scanned_port_template(system_id@, ip_id@, p));
        let ghost dels = plan.deletes@.map_values(|d: String| drop_port_template(d@));
        let mut u: usize = 0;
        while u < plan.updates.len()
            invariant
                tx.db() == self.spec_path(),
                tx.log() == handed_all(tape),
                fits_each(self.spec_path(), tape, ts),
                tape.len() >= 1,
                tape[0] == read,
                u <= plan.updates@.len(),
                ups == plan.updates@.map_values(|u: (String, bool)| port_state_template(u.0@, u.1)),
                ts == head + ups.take(u as int),
            decreases plan.updates.len() - u,
        {
            let (port_id, is_open) = &plan.updates[u];
            let mut p: Vec<SqlValue> = Vec::new();
            p.push(sql::text_param(if *is_open {
                "open"
            } else {
                "closed"
            }));
            p.push(sql::text_param(scanned_at.as_str()));
            p.push(sql::text_param(port_id.as_str()));
            let x = sql::tx_perform(&mut tx, PORT_STATE_SQL, &p)?;
            proof {
                let t = port_state_template(port_id@, *is_open);
                assert(fits(x.handed(), t));
                lemma_fits_push(self.spec_path(), tape, ts, x, t);
                lemma_handed_push(tape, x);
                tape = tape.push(x);
                assert(ups.take(u + 1) == ups.take(u as int).push(t));
                ts = ts.push(t);
            }
            u = u + 1;
        }
        let mut n: usize = 0;
        while n < plan.inserts.len()
            invariant
                tx.db() == self.spec_path(),
                tx.log() == handed_all(tape),
                fits_each(self.spec_path(), tape, ts),
                tape.len() >= 1,
                tape[0] == read,
                n <= plan.inserts@.len(),
                ups.len() == plan.updates@.len(),
                ins == plan.inserts@.map_values(|p: u16| scanned_port_template(system_id@, ip_id@, p)),
                ts == head + ups + ins.take(n as int),
            decreases plan.inserts.len() - n,
        {
            let mut p: Vec<SqlValue> = Vec::new();
            p.push(SqlValue::Text(sql::new_id()));
            p.push(sql::text_param(system_id));
            p.push(sql::text_param(ip_id));
            p.push(SqlValue::Integer(plan.inserts[n] as i64));
            p.push(sql::text_param(scanned_at.as_str()));
            let x = sql::tx_perform(&mut tx, SCANNED_PORT_SQL, &p)?;
            proof {
                let t = scanned_port_template(system_id@, ip_id@, plan.inserts@[n as int]);
                assert(fits(x.handed(), t));
                lemma_fits_push(self.spec_path(), tape, ts, x, t);
                lemma_handed_push(tape, x);
                tape = tape.push(x);
                assert(ins.take(n + 1) == ins.take(n as int).push(t));
                ts = ts.push(t);
            }
            n = n + 1;
        }
        let mut d: usize = 0;
        while d < plan.deletes.len()
            invariant
                tx.db() == self.spec_path(),
                tx.log() == handed_all(tape),
                fits_each(self.spec_path(), tape, ts),
                tape.len() >= 1,
                tape[0] == read,
                d <= plan.deletes@.len(),
                dels == plan.deletes@.map_values(|d: String| drop_port_template(d@)),
                ts == head + ups + ins + dels.take(d as int),
            decreases plan.deletes.len() - d,
        {
            let mut p: Vec<SqlValue> = Vec::new();
            p.push(sql::text_param(plan.deletes[d].as_str()));
            let x = sql::tx_perform(&mut tx, DROP_PORT_SQL, &p)?;
            proof {
                let t = drop_port_template(plan.deletes@[d as int]@);
                assert(fits(x.handed(), t));
                lemma_fits_push(self.spec_path(), tape, ts, x, t);
                lemma_handed_push(tape, x);
                tape = tape.push(x);
                assert(dels.take(d + 1) == dels.take(d as int).push(t));
                ts = ts.push(t);
            }
            d = d + 1;
        }
        assert(ups.take(ups.len() as int) == ups);
        assert(ins.take(ins.len() as int) == ins);
        assert(dels.take(dels.len() as int) == dels);
        assert(ts == head + ups + ins + dels);
        if plan.opened.len() > 0 {
            let details = port_change_details(&plan.opened);
            let alert = alert_params(
                batch_id,
                Some(system_id),
                "port_change",
                "high",
                ip,
                Some("closed/unknown"),
                Some("open"),
                Some(details.as_str()),
            );
            let x = sql::tx_perform(&mut tx, ALERT_SQL, &alert)?;
            proof {
                let t = alert_template(batch_id@, Some(system_id@), "port_change"@, "high"@, ip@,
                    Some("closed/unknown"@), Some("open"@), Some(port_change_text(plan.opened@)));
                lemma_fits_push(self.spec_path(), tape, ts, x, t);
                lemma_handed_push(tape, x);
                tape = tape.push(x);
                ts = ts.push(t);
            }
        }
        if plan.closed.len() > 0 {
            let details = port_change_details(&plan.closed);
            let alert = alert_params(
                batch_id,
                Some(system_id),
                "port_change",
                "medium",
                ip,
                Some("open"),
                Some("closed"),
                Some(details.as_str()),
            );
            let x = sql::tx_perform(&mut tx, ALERT_SQL, &alert)?;
            proof {
                let t = alert_template(batch_id@, Some(system_id@), "port_change"@, "medium"@, ip@,
                    Some("open"@), Some("closed"@), Some(port_change_text(plan.closed@)));
                lemma_fits_push(self.spec_path(), tape, ts, x, t);
                lemma_handed_push(tape, x);
                tape = tape.push(x);
                ts = ts.push(t);
            }
        }
        let mut p: Vec<SqlValue> = Vec::new();
        p.push(SqlValue::Text(sql::new_id()));
        p.push(sql::text_param(batch_id));
        p.push(sql::text_param(system_id));
        p.push(sql::text_param(ip_id));
        p.push(sql::text_param(ip));
        p.push(SqlValue::Integer(probed_ports as i64));
        p.push(SqlValue::Integer(open_ports.len() as i64));
        p.push(opt_string(compact_port_list(&plan.opened)));
        p.push(opt_string(compact_port_list(&plan.closed)));
        p.push(SqlValue::Text(scanned_at));
        let x = sql::tx_perform(&mut tx, SCAN_SUMMARY_SQL, &p)?;
        proof {
            let t = writes.last();
            assert(fits(x.handed(), t));
            lemma_fits_push(self.spec_path(), tape, ts, x, t);
            lemma_handed_push(tape, x);
            tape = tape.push(x);
            ts = ts.push(t);
        }
        let ghost log = tx.log();
        sql::commit(tx)?;
        proof {
            assert(committed(self.spec_path(), handed_all(tape)));
            assert(ts == head + writes);
            assert(tape[0] == read);
            assert(existing_rows(tape[0].reply(), existing@));
            assert(is_scan_plan(plan, existing@, open_ports@, scan_complete));
            assert(ip_scan_recorded(self.spec_path(), tape, batch_id@, system_id@, ip_id@, ip@, open_ports@, probed_ports, scan_complete));
        }
        Ok(())
    }

    /// The scan summaries of a batch, ordered by IP.
    pub fn list_scan_summaries(&self, batch_id: &str) -> (r: Result<Vec<ScanSummary>, WatcherError>)
        ensures
            r matches Ok(v) ==> exists|x: Exchange|
                x.on() == self.spec_path() && #[trigger] x.handed() == (SCAN_SUMMARIES_SQL@, seq![Param::Text(batch_id@)]) && v@.len()
                    == x.reply().len() && forall|k: int|
                    0 <= k < v@.len() ==> summary_from_row(x.reply()[k]@, #[trigger] v@[k]),
            r matches Err(e) ==> e.is_storage(),
    {
        let conn = self.conn()?;
        let mut params: Vec<SqlValue> = Vec::new();
        params.push(sql::text_param(batch_id));
        let x = sql::ask(&conn, SCAN_SUMMARIES_SQL, &params)?;
        assert(x.handed() == (SCAN_SUMMARIES_SQL@, seq![Param::Text(batch_id@)]));
        let rows = x.rows();
        let mut out: Vec<ScanSummary> = Vec::new();
        let mut i: usize = 0;
        while i < rows.len()
            invariant
                conn.db() == self.spec_path(),
                i <= rows@.len(),
                out@.len() == i,
                rows@ == x.reply(),
                forall|k: int| 0 <= k < i ==> summary_from_row(rows@[k]@, #[trigger] out@[k]),
            decreases rows.len() - i,
        {
            out.push(map_scan_summary(&rows[i])?);
            i = i + 1;
        }
        Ok(out)
    }

    /// Writes the quick fingerprint of a port.
    pub fn update_port_fingerprint(
        &self,
        port_id: &str,
        service: Option<&str>,
        fingerprint: Option<&str>,
        is_web: bool,
        scheme: Option<&str>,
    ) -> (r: Result<(), WatcherError>)
        ensures
            r matches Ok(()) ==> written(self.spec_path(), 
                (PORT_FINGERPRINT_SQL@, seq![
                    opt_slot(opt_str(service)),
                    opt_slot(opt_str(fingerprint)),
                    Some(Param::Integer(if is_web { 1 } else { 0 })),
                    opt_slot(opt_str(scheme)),
                    None,
                    text_slot(port_id@),
                ]),
            ),
            r matches Err(e) ==> e.is_storage(),
    {
        let conn = self.conn()?;
        let mut p: Vec<SqlValue> = Vec::new();
        p.push(opt_param(service));
        p.push(opt_param(fingerprint));
        p.push(SqlValue::Integer(if is_web {
            1
        } else {
            0
        }));
        p.push(opt_param(scheme));
        p.push(SqlValue::Text(sql::now()));
        p.push(sql::text_param(port_id));
        let x = sql::perform(&conn, PORT_FINGERPRINT_SQL, &p)?;
        assert(fits(x.handed(), (PORT_FINGERPRINT_SQL@, seq![
            opt_slot(opt_str(service)),
            opt_slot(opt_str(fingerprint)),
            Some(Param::Integer(if is_web { 1 } else { 0 })),
            opt_slot(opt_str(scheme)),
            None,
            text_slot(port_id@),
        ])));
        Ok(())
    }

    /// Writes the detailed fingerprint of a port, keeping the stored service
    /// and fingerprint where the new ones are missing.
    pub fn update_port_detailed_fingerprint(
        &self,
        port_id: &str,
        service: Option<&str>,
        fingerprint: Option<&str>,
    ) -> (r: Result<(), WatcherError>)
        ensures
            r matches Ok(()) ==> written(self.spec_path(), 
                (PORT_DETAILED_FINGERPRINT_SQL@, seq![
                    opt_slot(opt_str(service)),
                    opt_slot(opt_str(fingerprint)),
                    None,
                    text_slot(port_id@),
                ]),
            ),
            r matches Err(e) ==> e.is_storage(),
    {
        let conn = self.conn()?;
        let mut p: Vec<SqlValue> = Vec::new();
        p.push(opt_param(service));
        p.push(opt_param(fingerprint));
        p.push(SqlValue::Text(sql::now()));
        p.push(sql::text_param(port_id));
        let x = sql::perform(&conn, PORT_DETAILED_FINGERPRINT_SQL, &p)?;
        assert(fits(x.handed(), (PORT_DETAILED_FINGERPRINT_SQL@, seq![
            opt_slot(opt_str(service)),
            opt_slot(opt_str(fingerprint)),
            None,
            text_slot(port_id@),
        ])));
        Ok(())
    }

    /// Stores the addresses a domain now resolves to, records each as a
    /// `resolved` IP of its system, and raises a `dns_change` alert when the
    /// comma-joined list differs from the stored one.
    pub fn update_domain_resolution(
        &self,
        batch_id: &str,
        domain: &DomainAsset,
        new_ips: &Vec<String>,
    ) -> (r: Result<(), WatcherError>)
        ensures
            r matches Err(e) ==> e.is_storage() || (e is Invalid && exists|k: int|
                0 <= k < new_ips@.len() && crate::text::trim(#[trigger] new_ips@[k]@).len() == 0),
            r matches Ok(()) ==> resolution_recorded(self.spec_path(), batch_id@, *domain, views(new_ips@)),
    {
        let new_value = join_strings(new_ips, ",");
        let old_value = match &domain.bind_ip {
            Some(b) => b.clone(),
            None => String::new(),
        };
        let conn = self.conn()?;
        let mut p: Vec<SqlValue> = Vec::new();
        p.push(sql::text_param(new_value.as_str()));
        p.push(SqlValue::Text(sql::now()));
        p.push(sql::text_param(domain.id.as_str()));
        let x = sql::perform(&conn, DOMAIN_RESOLVED_SQL, &p)?;
        assert(fits(x.handed(), (DOMAIN_RESOLVED_SQL@, seq![
            text_slot(join_with(views(new_ips@), ","@)),
            None,
            text_slot(domain.id@),
        ])));
        let mut i: usize = 0;
        while i < new_ips.len()
            invariant
                conn.db() == self.spec_path(),
                i <= new_ips@.len(),
                forall|k: int| 0 <= k < i ==> #[trigger] ip_resolved(self.spec_path(), domain.system_id@, new_ips@[k]@),
            decreases new_ips.len() - i,
        {
            match self.upsert_ip(domain.system_id.as_str(), new_ips[i].as_str(), "resolved") {
                Ok(id) => {
                    assert(ip_upserted(self.spec_path(), domain.system_id@, new_ips@[i as int]@, "resolved"@, id@));
                    assert(ip_resolved(self.spec_path(), domain.system_id@, new_ips@[i as int]@));
                },
                Err(e) => {
                    return Err(e);
                },
            }
            i = i + 1;
        }
        if !str_eq(old_value.as_str(), new_value.as_str()) {
            let old = if old_value.as_str().unicode_len() == 0 {
                None
            } else {
                Some(old_value.as_str())
            };
            self.add_alert(
                batch_id,
                Some(domain.system_id.as_str()),
                "dns_change",
                "medium",
                domain.name.as_str(),
                old,
                Some(new_value.as_str()),
                None,
            )?;
        }
        proof {
            assert(forall|k: int| 0 <= k < new_ips@.len() ==> views(new_ips@)[k] == new_ips@[k]@);
        }
        Ok(())
    }

    /// Records an alert.
    #[allow(clippy::too_many_arguments)]
    pub fn add_alert(
        &self,
        batch_id: &str,
        system_id: Option<&str>,
        kind: &str,
        severity: &str,
        subject: &str,
        old_value: Option<&str>,
        new_value: Option<&str>,
        details: Option<&str>,
    ) -> (r: Result<(), WatcherError>)
        ensures
            r matches Ok(()) ==> exists|x: Exchange|
                x.on() == self.spec_path() && fits(#[trigger] x.handed(), alert_template(batch_id@, opt_str(system_id), kind@, severity@,
                    subject@, opt_str(old_value), opt_str(new_value), opt_str(details))),
            r matches Err(e) ==> e.is_storage(),
    {
        let conn = self.conn()?;
        let x = insert_alert(
            &conn,
            batch_id,
            system_id,
            kind,
            severity,
            subject,
            old_value,
            new_value,
            details,
        )?;
        Ok(())
    }

    /// Records a vulnerability finding (a repeated finding is ignored) and
    /// the vulnerable URL as a `vuln` URL of the system with value 100.
    pub fn add_vulnerability(
        &self,
        batch_id: &str,
        system_id: &str,
        url: &str,
        poc: &str,
        severity: &str,
        evidence: &str,
    ) -> (r: Result<(), WatcherError>)
        ensures
            r matches Err(e) ==> e.is_storage() || (e is Invalid && crate::text::trim(url@).len()
                == 0),
            r matches Ok(()) ==> written(self.spec_path(), 
                (VULNERABILITY_SQL@, seq![
                    None,
                    text_slot(batch_id@),
                    text_slot(system_id@),
                    text_slot(url@),
                    text_slot(poc@),
                    text_slot(severity@),
                    text_slot(evidence@),
                    None,
                ]),
            ),
            r matches Ok(()) ==> exists|id: Seq<char>| #[trigger] url_upserted(self.spec_path(), system_id@, url@, "vuln"@, None, 100, id),
            crate::text::trim(url@).len() == 0 ==> r is Err,
    {
        let conn = self.conn()?;
        let mut p: Vec<SqlValue> = Vec::new();
        p.push(SqlValue::Text(sql::new_id()));
        p.push(sql::text_param(batch_id));
        p.push(sql::text_param(system_id));
        p.push(sql::text_param(url));
        p.push(sql::text_param(poc));
        p.push(sql::text_param(severity));
        p.push(sql::text_param(evidence));
        p.push(SqlValue::Text(sql::now()));
        let x = sql::perform(&conn, VULNERABILITY_SQL, &p)?;
        assert(fits(x.handed(), (VULNERABILITY_SQL@, seq![
            None,
            text_slot(batch_id@),
            text_slot(system_id@),
            text_slot(url@),
            text_slot(poc@),
            text_slot(severity@),
            text_slot(evidence@),
            None,
        ])));
        let id = self.upsert_url(system_id, url, "vuln", None, 100)?;
        assert(url_upserted(self.spec_path(), system_id@, url@, "vuln"@, None, 100, id@));
        Ok(())
    }
}

/// An optional text parameter from an optional string.
fn opt_string(value: Option<String>) -> (v: SqlValue)
    ensures
        match value {
            Some(t) => text_of(v) == Some(t@),
            None => v is Null,
        },
{
    match value {
        Some(t) => SqlValue::Text(t),
        None => SqlValue::Null,
    }
}

} // verus!
