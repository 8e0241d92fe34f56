//! Listings of assets, batches, alerts and vulnerabilities.

use vstd::prelude::*;

use crate::error::WatcherError;
use crate::models::{Alert, BatchRow, BatchStatus, DomainAsset, IpAsset, PortAsset, UrlAsset, Vulnerability};

use super::cli_query::{limit_param, saturated};
use super::helpers::{self, batch_from_row, domain_from_row, ip_from_row, port_from_row, url_from_row};
use super::sql::{self, int_of, opt_text_of, opt_view, text_of, SqlValue, Exchange, Param};
use super::types::Database;

verus! {

/// The UTC RFC 3339 spelling of an RFC 3339 timestamp, as
/// `DateTime::parse_from_rfc3339(..).with_timezone(&Utc).to_rfc3339()`
/// gives it, or `None` when the text does not parse.
pub uninterp spec fn utc_rfc3339(text: Seq<char>) -> Option<Seq<char>>;

/// Re-spells an RFC 3339 timestamp in UTC.
///
/// Calls `chrono::DateTime::parse_from_rfc3339` and formats the instant in
/// UTC; the result is named by [`utc_rfc3339`].
#[verifier::external_body]
pub(crate) fn to_utc_rfc3339(text: &str) -> (r: Option<String>)
    ensures
        opt_view(r) == utc_rfc3339(text@),
{
    chrono::DateTime::parse_from_rfc3339(text).ok().map(|t| t.with_timezone(&chrono::Utc).to_rfc3339())
}

/// A result row decodes as an alert.
pub open spec fn alert_from_row(row: Seq<SqlValue>, a: Alert) -> bool {
    &&& row.len() >= 11
    &&& text_of(row[0]) == Some(a.id@)
    &&& text_of(row[1]) == Some(a.batch_id@)
    &&& (row[2] is Null || row[2] is Text) && opt_view(a.system_id) == opt_text_of(row[2])
    &&& (row[3] is Null || row[3] is Text) && opt_view(a.system_name) == opt_text_of(row[3])
    &&& text_of(row[4]) == Some(a.kind@)
    &&& text_of(row[5]) == Some(a.severity@)
    &&& text_of(row[6]) == Some(a.subject@)
    &&& (row[7] is Null || row[7] is Text) && opt_view(a.old_value) == opt_text_of(row[7])
    &&& (row[8] is Null || row[8] is Text) && opt_view(a.new_value) == opt_text_of(row[8])
    &&& (row[9] is Null || row[9] is Text) && opt_view(a.details) == opt_text_of(row[9])
    &&& text_of(row[10]) is Some && utc_rfc3339(text_of(row[10]).unwrap()) == Some(a.created_at@)
}

/// Decodes an alert row, its creation time re-spelled in UTC.
pub fn map_alert(row: &[SqlValue]) -> (r: Result<Alert, WatcherError>)
    ensures
        r matches Ok(a) ==> alert_from_row(row@, a),
        r matches Err(e) ==> e is Decode,
{
    let created = sql::get_text(row, 10)?;
    let id = sql::get_text(row, 0)?;
    let batch_id = sql::get_text(row, 1)?;
    let system_id = sql::get_opt_text(row, 2)?;
    let system_name = sql::get_opt_text(row, 3)?;
    let kind = sql::get_text(row, 4)?;
    let severity = sql::get_text(row, 5)?;
    let subject = sql::get_text(row, 6)?;
    let old_value = sql::get_opt_text(row, 7)?;
    let new_value = sql::get_opt_text(row, 8)?;
    let details = sql::get_opt_text(row, 9)?;
    let created_at = match to_utc_rfc3339(created.as_str()) {
        Some(t) => t,
        None => return Err(WatcherError::Decode),
    };
    Ok(
        Alert {
            id,
            batch_id,
            system_id,
            system_name,
            kind,
            severity,
            subject,
            old_value,
            new_value,
            details,
            created_at,
        },
    )
}

/// A result row decodes as a vulnerability.
pub open spec fn vulnerability_from_row(row: Seq<SqlValue>, v: Vulnerability) -> bool {
    &&& row.len() >= 9
    &&& text_of(row[0]) == Some(v.id@)
    &&& text_of(row[1]) == Some(v.batch_id@)
    &&& text_of(row[2]) == Some(v.system_id@)
    &&& text_of(row[3]) == Some(v.system_name@)
    &&& text_of(row[4]) == Some(v.url@)
    &&& text_of(row[5]) == Some(v.poc@)
    &&& text_of(row[6]) == Some(v.severity@)
    &&& text_of(row[7]) == Some(v.evidence@)
    &&& text_of(row[8]) is Some && utc_rfc3339(text_of(row[8]).unwrap()) == Some(v.created_at@)
}

/// Decodes a vulnerability row, its creation time re-spelled in UTC.
pub fn map_vulnerability(row: &[SqlValue]) -> (r: Result<Vulnerability, WatcherError>)
    ensures
        r matches Ok(v) ==> vulnerability_from_row(row@, v),
        r matches Err(e) ==> e is Decode,
{
    let created = sql::get_text(row, 8)?;
    let id = sql::get_text(row, 0)?;
    let batch_id = sql::get_text(row, 1)?;
    let system_id = sql::get_text(row, 2)?;
    let system_name = sql::get_text(row, 3)?;
    let url = sql::get_text(row, 4)?;
    let poc = sql::get_text(row, 5)?;
    let severity = sql::get_text(row, 6)?;
    let evidence = sql::get_text(row, 7)?;
    let created_at = match to_utc_rfc3339(created.as_str()) {
        Some(t) => t,
        None => return Err(WatcherError::Decode),
    };
    Ok(Vulnerability { id, batch_id, system_id, system_name, url, poc, severity, evidence, created_at })
}

/// Every row decoded with `map_alert`.
fn map_alerts(rows: &[Vec<SqlValue>]) -> (r: Result<Vec<Alert>, WatcherError>)
    ensures
        r matches Ok(v) ==> v@.len() == rows@.len() && forall|i: int|
            0 <= i < v@.len() ==> alert_from_row(rows@[i]@, #[trigger] v@[i]),
        r matches Err(e) ==> e.is_storage(),
{
    let mut out: Vec<Alert> = Vec::new();
    let mut i: usize = 0;
    while i < rows.len()
        invariant
            i <= rows@.len(),
            out@.len() == i,
            forall|k: int| 0 <= k < i ==> alert_from_row(rows@[k]@, #[trigger] out@[k]),
        decreases rows.len() - i,
    {
        out.push(map_alert(&rows[i])?);
        i = i + 1;
    }
    Ok(out)
}

/// Every row decoded with `map_vulnerability`.
fn map_vulnerabilities(rows: &[Vec<SqlValue>]) -> (r: Result<Vec<Vulnerability>, WatcherError>)
    ensures
        r matches Ok(v) ==> v@.len() == rows@.len() && forall|i: int|
            0 <= i < v@.len() ==> vulnerability_from_row(rows@[i]@, #[trigger] v@[i]),
        r matches Err(e) ==> e.is_storage(),
{
    let mut out: Vec<Vulnerability> = Vec::new();
    let mut i: usize = 0;
    while i < rows.len()
        invariant
            i <= rows@.len(),
            out@.len() == i,
            forall|k: int| 0 <= k < i ==> vulnerability_from_row(rows@[k]@, #[trigger] out@[k]),
        decreases rows.len() - i,
    {
        out.push(map_vulnerability(&rows[i])?);
        i = i + 1;
    }
    Ok(out)
}

/// The single-text parameter list.
fn one_text(value: &str) -> (p: Vec<SqlValue>)
    ensures
        p@.len() == 1,
        text_of(p@[0]) == Some(value@),
{
    let mut p: Vec<SqlValue> = Vec::new();
    p.push(sql::text_param(value));
    p
}

/// The query behind [`Database::list_domains_for_system`].
pub const LIST_DOMAINS_FOR_SYSTEM_SQL: &'static str = "SELECT d.id, d.system_id, s.name, d.name, d.bind_ip, d.is_baseline
             FROM domains d JOIN systems s ON s.id = d.system_id
             WHERE d.system_id = ?1
             ORDER BY d.name";

/// The query behind [`Database::list_domains`].
pub const LIST_DOMAINS_SQL: &'static str = "SELECT d.id, d.system_id, s.name, d.name, d.bind_ip, d.is_baseline
             FROM domains d JOIN systems s ON s.id = d.system_id
             ORDER BY s.name, d.name";

/// The query behind [`Database::list_real_ips`].
pub const LIST_REAL_IPS_SQL: &'static str = "SELECT i.id, i.system_id, s.name, i.ip, i.source, i.is_baseline
             FROM ip_addresses i JOIN systems s ON s.id = i.system_id
             WHERE i.source != 'resolved'
             ORDER BY s.name, i.ip";

/// The query behind [`Database::list_open_ports`].
pub const LIST_OPEN_PORTS_SQL: &'static str = "SELECT p.id, p.system_id, s.name, p.ip_id, i.ip, p.port, p.state, p.service, p.fingerprint, p.is_web, p.scheme, p.is_baseline
             FROM ports p
             JOIN systems s ON s.id = p.system_id
             LEFT JOIN ip_addresses i ON i.id = p.ip_id
             WHERE p.state = 'open'
             ORDER BY s.name, i.ip, p.port";

/// The query behind [`Database::list_web_services`].
pub const LIST_WEB_SERVICES_SQL: &'static str = "SELECT p.id, p.system_id, s.name, p.ip_id, i.ip, p.port, p.state, p.service, p.fingerprint, p.is_web, p.scheme, p.is_baseline
             FROM ports p
             JOIN systems s ON s.id = p.system_id
             LEFT JOIN ip_addresses i ON i.id = p.ip_id
             WHERE p.state = 'open' AND p.is_web = 1
             ORDER BY s.name, i.ip, p.port";

/// The query behind [`Database::list_urls`].
pub const LIST_URLS_SQL: &'static str = "SELECT u.id, u.system_id, s.name, u.url, u.source, u.status_code, u.value_score, u.is_baseline
             FROM urls u JOIN systems s ON s.id = u.system_id
             ORDER BY s.name, u.url";

/// The query behind [`Database::list_alerts`].
pub const LIST_ALERTS_SQL: &'static str = "SELECT a.id, a.batch_id, a.system_id, s.name, a.kind, a.severity, a.subject, a.old_value, a.new_value, a.details, a.created_at
             FROM alerts a
             LEFT JOIN systems s ON s.id = a.system_id
             WHERE a.batch_id = ?1
             ORDER BY a.created_at";

/// The query behind [`Database::list_vulnerabilities`].
pub const LIST_VULNERABILITIES_SQL: &'static str = "SELECT v.id, v.batch_id, v.system_id, s.name, v.url, v.poc, v.severity, v.evidence, v.created_at
             FROM vulnerabilities v
             JOIN systems s ON s.id = v.system_id
             WHERE v.batch_id = ?1
             ORDER BY v.created_at";

/// The query of a batch by id.
pub const BATCH_BY_ID_SQL: &'static str = "SELECT id, status, started_at, ended_at, report_zip FROM batches WHERE id = ?1";

/// The query of the most recently started batch.
pub const LATEST_BATCH_ROW_SQL: &'static str = "SELECT id, status, started_at, ended_at, report_zip FROM batches ORDER BY started_at DESC LIMIT 1";

/// The view of an optional batch id.
pub open spec fn batch_view(batch: Option<&str>) -> Option<Seq<char>> {
    match batch {
        Some(b) => Some(b@),
        None => None,
    }
}

/// The first row of a reply exists and its first column holds `n`.
pub open spec fn count_reply(rows: Seq<Vec<SqlValue>>, n: i64) -> bool {
    rows.len() > 0 && rows[0]@.len() > 0 && int_of(rows[0]@[0]) == Some(n)
}

/// A batch status is what its queries answered: the batch row (by id, or
/// the most recent one), then the counts of the batch's alerts and
/// vulnerabilities.
pub open spec fn batch_status_from(
    db: Seq<char>,
    s: BatchStatus,
    batch: Option<Seq<char>>,
    q: Exchange,
    a: Exchange,
    v: Exchange,
) -> bool {
    &&& q.on() == db && a.on() == db && v.on() == db
    &&& match batch {
        Some(b) => q.handed() == (BATCH_BY_ID_SQL@, seq![Param::Text(b)]),
        None => q.handed() == (LATEST_BATCH_ROW_SQL@, Seq::<Param>::empty()),
    }
    &&& q.reply().len() > 0 && exists|row: BatchRow|
        #[trigger] batch_from_row(q.reply()[0]@, row) && s.status@ == row.status@ && s.started_at@
            == row.started_at@ && opt_view(s.ended_at) == opt_view(row.ended_at) && (batch is None ==> s.batch_id@
            == row.id@)
    &&& a.handed() == ("SELECT COUNT(*) FROM alerts WHERE batch_id = ?1"@, seq![Param::Text(s.batch_id@)])
        && count_reply(a.reply(), s.alerts)
    &&& v.handed() == ("SELECT COUNT(*) FROM vulnerabilities WHERE batch_id = ?1"@, seq![Param::Text(s.batch_id@)])
        && count_reply(v.reply(), s.vulnerabilities)
}

impl Database {
    /// Every domain with its system, ordered by system and name.
    pub fn list_domains(&self) -> (r: Result<Vec<DomainAsset>, WatcherError>)
        ensures
            r matches Ok(v) ==> exists|x: Exchange|
                x.on() == self.spec_path() && #[trigger] x.handed() == (LIST_DOMAINS_SQL@, Seq::<Param>::empty()) && v@.len() == x.reply().len() && forall|i: int|
                    0 <= i < v@.len() ==> domain_from_row(x.reply()[i]@, #[trigger] v@[i]),
            r matches Err(e) ==> e.is_storage(),
    {
        let conn = self.conn()?;
        let empty: Vec<SqlValue> = Vec::new();
        let x = sql::ask(&conn, LIST_DOMAINS_SQL, &empty)?;
        assert(x.handed() == (LIST_DOMAINS_SQL@, Seq::<Param>::empty()));
        helpers::map_domains(x.rows())
    }

    /// The domains of one system, ordered by name; every one belongs to it.
    pub fn list_domains_for_system(&self, system_id: &str) -> (r: Result<
        Vec<DomainAsset>,
        WatcherError,
    >)
        ensures
            r matches Ok(v) ==> exists|x: Exchange|
                x.on() == self.spec_path() && #[trigger] x.handed() == (LIST_DOMAINS_FOR_SYSTEM_SQL@, seq![Param::Text(system_id@)]) && v@.len() == x.reply().len() && forall|i: int|
                    0 <= i < v@.len() ==> domain_from_row(x.reply()[i]@, #[trigger] v@[i]),
            r matches Err(e) ==> e.is_storage(),
    {
        let conn = self.conn()?;
        let params = one_text(system_id);
        let x = sql::ask(&conn, LIST_DOMAINS_FOR_SYSTEM_SQL, &params)?;
        assert(x.handed() == (LIST_DOMAINS_FOR_SYSTEM_SQL@, seq![Param::Text(system_id@)]));
        helpers::map_domains(x.rows())
    }

    /// Every IP address that was not only resolved from a domain.
    pub fn list_real_ips(&self) -> (r: Result<Vec<IpAsset>, WatcherError>)
        ensures
            r matches Ok(v) ==> exists|x: Exchange|
                x.on() == self.spec_path() && #[trigger] x.handed() == (LIST_REAL_IPS_SQL@, Seq::<Param>::empty()) && v@.len() == x.reply().len() && forall|i: int|
                    0 <= i < v@.len() ==> ip_from_row(x.reply()[i]@, #[trigger] v@[i]),
            r matches Err(e) ==> e.is_storage(),
    {
        let conn = self.conn()?;
        let empty: Vec<SqlValue> = Vec::new();
        let x = sql::ask(&conn, LIST_REAL_IPS_SQL, &empty)?;
        assert(x.handed() == (LIST_REAL_IPS_SQL@, Seq::<Param>::empty()));
        helpers::map_ips(x.rows())
    }

    /// Every port currently seen open.
    pub fn list_open_ports(&self) -> (r: Result<Vec<PortAsset>, WatcherError>)
        ensures
            r matches Ok(v) ==> exists|x: Exchange|
                x.on() == self.spec_path() && #[trigger] x.handed() == (LIST_OPEN_PORTS_SQL@, Seq::<Param>::empty()) && v@.len() == x.reply().len() && forall|i: int|
                    0 <= i < v@.len() ==> port_from_row(x.reply()[i]@, #[trigger] v@[i]),
            r matches Err(e) ==> e.is_storage(),
    {
        let conn = self.conn()?;
        let empty: Vec<SqlValue> = Vec::new();
        let x = sql::ask(&conn, LIST_OPEN_PORTS_SQL, &empty)?;
        assert(x.handed() == (LIST_OPEN_PORTS_SQL@, Seq::<Param>::empty()));
        helpers::map_ports(x.rows())
    }

    /// Every open port that serves HTTP(S).
    pub fn list_web_services(&self) -> (r: Result<Vec<PortAsset>, WatcherError>)
        ensures
            r matches Ok(v) ==> exists|x: Exchange|
                x.on() == self.spec_path() && #[trigger] x.handed() == (LIST_WEB_SERVICES_SQL@, Seq::<Param>::empty()) && v@.len() == x.reply().len() && forall|i: int|
                    0 <= i < v@.len() ==> port_from_row(x.reply()[i]@, #[trigger] v@[i]),
            r matches Err(e) ==> e.is_storage(),
    {
        let conn = self.conn()?;
        let empty: Vec<SqlValue> = Vec::new();
        let x = sql::ask(&conn, LIST_WEB_SERVICES_SQL, &empty)?;
        assert(x.handed() == (LIST_WEB_SERVICES_SQL@, Seq::<Param>::empty()));
        helpers::map_ports(x.rows())
    }

    /// Every URL with its system.
    pub fn list_urls(&self) -> (r: Result<Vec<UrlAsset>, WatcherError>)
        ensures
            r matches Ok(v) ==> exists|x: Exchange|
                x.on() == self.spec_path() && #[trigger] x.handed() == (LIST_URLS_SQL@, Seq::<Param>::empty()) && v@.len() == x.reply().len() && forall|i: int|
                    0 <= i < v@.len() ==> url_from_row(x.reply()[i]@, #[trigger] v@[i]),
            r matches Err(e) ==> e.is_storage(),
    {
        let conn = self.conn()?;
        let empty: Vec<SqlValue> = Vec::new();
        let x = sql::ask(&conn, LIST_URLS_SQL, &empty)?;
        assert(x.handed() == (LIST_URLS_SQL@, Seq::<Param>::empty()));
        helpers::map_urls(x.rows())
    }

    /// The most recent batches, newest first, at most `limit` of them.
    pub fn list_batches(&self, limit: usize) -> (r: Result<Vec<BatchRow>, WatcherError>)
        ensures
            r matches Ok(v) ==> exists|x: Exchange|
                x.on() == self.spec_path() && #[trigger] x.handed() == (
                    "SELECT id, status, started_at, ended_at, report_zip FROM batches ORDER BY started_at DESC LIMIT ?1"@,
                    seq![Param::Integer(saturated(limit))],
                ) && v@.len() == x.reply().len() && forall|i: int|
                    0 <= i < v@.len() ==> batch_from_row(x.reply()[i]@, #[trigger] v@[i]),
            r matches Err(e) ==> e.is_storage(),
    {
        let conn = self.conn()?;
        let mut params: Vec<SqlValue> = Vec::new();
        params.push(limit_param(limit));
        let x = sql::ask(
            &conn,
            "SELECT id, status, started_at, ended_at, report_zip FROM batches ORDER BY started_at DESC LIMIT ?1",
            &params,
        )?;
        assert(x.handed() == (
            "SELECT id, status, started_at, ended_at, report_zip FROM batches ORDER BY started_at DESC LIMIT ?1"@,
            seq![Param::Integer(saturated(limit))],
        ));
        helpers::map_batches(x.rows())
    }

    /// The named batch (or the latest one) with its alert and vulnerability
    /// counts.
    pub fn batch_status(&self, batch: Option<&str>) -> (r: Result<BatchStatus, WatcherError>)
        ensures
            r matches Err(e) ==> e.is_storage(),
            r matches Ok(s) ==> (batch matches Some(b) ==> s.batch_id@ == b@),
            r matches Ok(s) ==> exists|q: Exchange, a: Exchange, v: Exchange|
                #[trigger] batch_status_from(self.spec_path(), s, batch_view(batch), q, a, v),
    {
        let conn = self.conn()?;
        let q = match batch {
            Some(b) => {
                let params = one_text(b);
                let x = sql::ask(&conn, BATCH_BY_ID_SQL, &params)?;
                assert(x.handed() == (BATCH_BY_ID_SQL@, seq![Param::Text(b@)]));
                x
            },
            None => {
                let empty: Vec<SqlValue> = Vec::new();
                let x = sql::ask(&conn, LATEST_BATCH_ROW_SQL, &empty)?;
                assert(x.handed() == (LATEST_BATCH_ROW_SQL@, Seq::<Param>::empty()));
                x
            },
        };
        let rows = q.rows();
        if rows.len() == 0 {
            return Err(WatcherError::NoRows);
        }
        let row = helpers::map_batch(&rows[0])?;
        let id = match batch {
            Some(b) => String::from_str(b),
            None => row.id.clone(),
        };
        let params = one_text(id.as_str());
        let ax = sql::ask(&conn, "SELECT COUNT(*) FROM alerts WHERE batch_id = ?1", &params)?;
        assert(ax.handed() == ("SELECT COUNT(*) FROM alerts WHERE batch_id = ?1"@, seq![Param::Text(id@)]));
        let alerts = sql::single_int(ax.rows())?;
        let vx = sql::ask(&conn, "SELECT COUNT(*) FROM vulnerabilities WHERE batch_id = ?1", &params)?;
        assert(vx.handed() == ("SELECT COUNT(*) FROM vulnerabilities WHERE batch_id = ?1"@, seq![Param::Text(id@)]));
        let vulnerabilities = sql::single_int(vx.rows())?;
        let ghost read = row;
        let s = BatchStatus {
            batch_id: id,
            status: row.status,
            started_at: row.started_at,
            ended_at: row.ended_at,
            alerts,
            vulnerabilities,
        };
        assert(batch_from_row(q.reply()[0]@, read));
        assert(batch_status_from(self.spec_path(), s, batch_view(batch), q, ax, vx));
        Ok(s)
    }

    /// The alerts of a batch in creation order, times in UTC.
    pub fn list_alerts(&self, batch_id: &str) -> (r: Result<Vec<Alert>, WatcherError>)
        ensures
            r matches Ok(v) ==> exists|x: Exchange|
                x.on() == self.spec_path() && #[trigger] x.handed() == (LIST_ALERTS_SQL@, seq![Param::Text(batch_id@)]) && v@.len() == x.reply().len() && forall|i: int|
                    0 <= i < v@.len() ==> alert_from_row(x.reply()[i]@, #[trigger] v@[i]),
            r matches Err(e) ==> e.is_storage(),
    {
        let conn = self.conn()?;
        let params = one_text(batch_id);
        let x = sql::ask(&conn, LIST_ALERTS_SQL, &params)?;
        assert(x.handed() == (LIST_ALERTS_SQL@, seq![Param::Text(batch_id@)]));
        map_alerts(x.rows())
    }

    /// The vulnerabilities of a batch in creation order, times in UTC.
    pub fn list_vulnerabilities(&self, batch_id: &str) -> (r: Result<
        Vec<Vulnerability>,
        WatcherError,
    >)
        ensures
            r matches Ok(v) ==> exists|x: Exchange|
                x.on() == self.spec_path() && #[trigger] x.handed() == (LIST_VULNERABILITIES_SQL@, seq![Param::Text(batch_id@)]) && v@.len() == x.reply().len() && forall|i: int|
                    0 <= i < v@.len() ==> vulnerability_from_row(x.reply()[i]@, #[trigger] v@[i]),
            r matches Err(e) ==> e.is_storage(),
    {
        let conn = self.conn()?;
        let params = one_text(batch_id);
        let x = sql::ask(&conn, LIST_VULNERABILITIES_SQL, &params)?;
        assert(x.handed() == (LIST_VULNERABILITIES_SQL@, seq![Param::Text(batch_id@)]));
        map_vulnerabilities(x.rows())
    }

    /// The id of the most recently started batch; an empty history is an
    /// error.
    pub fn latest_batch_id(&self) -> (r: Result<String, WatcherError>)
        ensures
            r matches Ok(id) ==> exists|x: Exchange|
                x.on() == self.spec_path() && #[trigger] x.handed() == (
                    "SELECT id FROM batches ORDER BY started_at DESC LIMIT 1"@,
                    Seq::<Param>::empty(),
                ) && x.reply().len() > 0 && x.reply()[0]@.len() > 0 && text_of(x.reply()[0]@[0]) == Some(id@),
            r matches Err(WatcherError::NoRows) ==> exists|x: Exchange|
                x.on() == self.spec_path() && #[trigger] x.handed() == (
                    "SELECT id FROM batches ORDER BY started_at DESC LIMIT 1"@,
                    Seq::<Param>::empty(),
                ) && x.reply().len() == 0,
            r matches Err(e) ==> e.is_storage(),
    {
        let conn = self.conn()?;
        let empty: Vec<SqlValue> = Vec::new();
        let x = sql::ask(&conn, "SELECT id FROM batches ORDER BY started_at DESC LIMIT 1", &empty)?;
        assert(x.handed() == ("SELECT id FROM batches ORDER BY started_at DESC LIMIT 1"@, Seq::<Param>::empty()));
        let rows = x.rows();
        if rows.len() == 0 {
            return Err(WatcherError::NoRows);
        }
        sql::get_text(&rows[0], 0)
    }
}

} // verus!
