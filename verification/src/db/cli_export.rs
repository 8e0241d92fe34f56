//! Asset exports: a header line followed by one record per row, ready to be
//! written as CSV.

use vstd::prelude::*;

use crate::error::WatcherError;

use super::helpers::{self, cell_text};
use super::sql::{self, SqlValue, Exchange, Param};
use super::types::Database;

verus! {

/// The query of every URL with its system, source, status code, value and
/// baseline flag, ordered by system and URL.
pub const EXPORT_URLS_SQL: &'static str = "SELECT s.name, u.url, u.source, COALESCE(u.status_code, ''), u.value_score, CASE WHEN u.is_baseline = 1 THEN 'true' ELSE 'false' END
             FROM urls u JOIN systems s ON s.id = u.system_id ORDER BY s.name, u.url";

/// The query behind [`Database::export_baseline_urls`].
pub const EXPORT_BASELINE_URLS_SQL: &'static str = "SELECT s.name, u.url, u.source, COALESCE(u.status_code, ''), u.value_score
             FROM urls u JOIN systems s ON s.id = u.system_id
             WHERE u.is_baseline = 1
             ORDER BY s.name, u.url";

/// The query behind [`Database::export_ports`].
pub const EXPORT_PORTS_SQL: &'static str = "SELECT s.name, COALESCE(i.ip, ''), p.port, p.state, COALESCE(p.service, ''), COALESCE(p.scheme, ''), CASE WHEN p.is_baseline = 1 THEN 'true' ELSE 'false' END
             FROM ports p JOIN systems s ON s.id = p.system_id
             LEFT JOIN ip_addresses i ON i.id = p.ip_id ORDER BY s.name, i.ip, p.port";

/// The query behind [`Database::export_baseline_ports`].
pub const EXPORT_BASELINE_PORTS_SQL: &'static str = "SELECT s.name, COALESCE(i.ip, ''), p.port, p.state, COALESCE(p.service, ''), COALESCE(p.scheme, '')
             FROM ports p JOIN systems s ON s.id = p.system_id
             LEFT JOIN ip_addresses i ON i.id = p.ip_id
             WHERE p.is_baseline = 1
             ORDER BY s.name, i.ip, p.port";

/// The query behind [`Database::export_ips`].
pub const EXPORT_IPS_SQL: &'static str = "SELECT s.name, i.ip, i.source, CASE WHEN i.is_baseline = 1 THEN 'true' ELSE 'false' END FROM ip_addresses i JOIN systems s ON s.id = i.system_id ORDER BY s.name, i.ip";

/// The query behind [`Database::export_baseline_ips`].
pub const EXPORT_BASELINE_IPS_SQL: &'static str = "SELECT s.name, i.ip, i.source
             FROM ip_addresses i JOIN systems s ON s.id = i.system_id
             WHERE i.is_baseline = 1
             ORDER BY s.name, i.ip";

/// The query behind [`Database::export_names`].
pub const EXPORT_NAMES_SQL: &'static str = "SELECT s.name, d.name, COALESCE(d.bind_ip, ''), CASE WHEN d.is_baseline = 1 THEN 'true' ELSE 'false' END FROM domains d JOIN systems s ON s.id = d.system_id ORDER BY s.name, d.name";

/// The query behind [`Database::export_baseline_names`].
pub const EXPORT_BASELINE_NAMES_SQL: &'static str = "SELECT s.name, d.name, COALESCE(d.bind_ip, '')
             FROM domains d JOIN systems s ON s.id = d.system_id
             WHERE d.is_baseline = 1
             ORDER BY s.name, d.name";

/// The records spell the rows, one for one and cell for cell (integers in
/// decimal, other non-text values empty).
pub open spec fn spelled_rows(records: Seq<Vec<String>>, rows: Seq<Vec<SqlValue>>) -> bool {
    &&& records.len() == rows.len()
    &&& forall|i: int|
        0 <= i < rows.len() ==> (#[trigger] records[i])@.len() == rows[i]@.len() && forall|j: int|
            0 <= j < rows[i]@.len() ==> (#[trigger] records[i]@[j])@ == cell_text(rows[i]@[j])
}

impl Database {
    /// The header line `headers`, then every row of the query spelled as
    /// text (integers in decimal, other non-text values empty).
    pub fn export_query(&self, query: &str, headers: &[&str]) -> (r: Result<
        Vec<Vec<String>>,
        WatcherError,
    >)
        ensures
            r matches Ok(records) ==> records@.len() >= 1 && records@[0]@.len() == headers@.len()
                && forall|j: int| 0 <= j < headers@.len() ==> (#[trigger] records@[0]@[j])@ == headers@[j]@,
            r matches Ok(records) ==> exists|x: Exchange|
                x.on() == self.spec_path() && #[trigger] x.handed() == (query@, Seq::<Param>::empty()) && spelled_rows(records@.skip(1), x.reply()),
            r matches Err(e) ==> e is Database,
    {
        let conn = self.conn()?;
        let empty: Vec<SqlValue> = Vec::new();
        let x = sql::ask(&conn, query, &empty)?;
        assert(x.handed() == (query@, Seq::<Param>::empty()));
        let rows = x.rows();
        let mut records: Vec<Vec<String>> = Vec::new();
        records.push(helpers::header_strings(headers));
        let mut body = helpers::table_strings(rows);
        let ghost spelled = body@;
        records.append(&mut body);
        assert(records@.skip(1) =~= spelled);
        Ok(records)
    }

    /// Every URL: `system, url, source, status_code, value_score, baseline`.
    pub fn export_urls(&self) -> (r: Result<Vec<Vec<String>>, WatcherError>)
        ensures
            r matches Ok(records) ==> records@.len() >= 1 && records@[0]@.len() == 6 && records@[0]@[0]@ == "system"@
                && records@[0]@[1]@ == "url"@ && records@[0]@[2]@ == "source"@ && records@[0]@[3]@ == "status_code"@
                && records@[0]@[4]@ == "value_score"@ && records@[0]@[5]@ == "baseline"@,
            r matches Ok(records) ==> exists|x: Exchange|
                x.on() == self.spec_path() && #[trigger] x.handed() == (EXPORT_URLS_SQL@, Seq::<Param>::empty()) && spelled_rows(
                    records@.skip(1),
                    x.reply(),
                ),
            r matches Err(e) ==> e is Database,
    {
        self.export_query(EXPORT_URLS_SQL, &["system", "url", "source", "status_code", "value_score", "baseline"])
    }

    /// Every baseline URL: `system, url, source, status_code, value_score`.
    pub fn export_baseline_urls(&self) -> (r: Result<Vec<Vec<String>>, WatcherError>)
        ensures
            r matches Ok(records) ==> records@.len() >= 1 && records@[0]@.len() == 5,
            r matches Ok(records) ==> exists|x: Exchange|
                x.on() == self.spec_path() && #[trigger] x.handed() == (EXPORT_BASELINE_URLS_SQL@, Seq::<Param>::empty()) && spelled_rows(records@.skip(1), x.reply()),
            r matches Err(e) ==> e is Database,
    {
        self.export_query(EXPORT_BASELINE_URLS_SQL, &["system", "url", "source", "status_code", "value_score"])
    }

    /// Every port: `system, ip, port, state, service, scheme, baseline`.
    pub fn export_ports(&self) -> (r: Result<Vec<Vec<String>>, WatcherError>)
        ensures
            r matches Ok(records) ==> records@.len() >= 1 && records@[0]@.len() == 7,
            r matches Ok(records) ==> exists|x: Exchange|
                x.on() == self.spec_path() && #[trigger] x.handed() == (EXPORT_PORTS_SQL@, Seq::<Param>::empty()) && spelled_rows(records@.skip(1), x.reply()),
            r matches Err(e) ==> e is Database,
    {
        self.export_query(EXPORT_PORTS_SQL, &["system", "ip", "port", "state", "service", "scheme", "baseline"])
    }

    /// Every baseline port: `system, ip, port, state, service, scheme`.
    pub fn export_baseline_ports(&self) -> (r: Result<Vec<Vec<String>>, WatcherError>)
        ensures
            r matches Ok(records) ==> records@.len() >= 1 && records@[0]@.len() == 6,
            r matches Ok(records) ==> exists|x: Exchange|
                x.on() == self.spec_path() && #[trigger] x.handed() == (EXPORT_BASELINE_PORTS_SQL@, Seq::<Param>::empty()) && spelled_rows(records@.skip(1), x.reply()),
            r matches Err(e) ==> e is Database,
    {
        self.export_query(EXPORT_BASELINE_PORTS_SQL, &["system", "ip", "port", "state", "service", "scheme"])
    }

    /// Every IP address: `system, ip, source, baseline`.
    pub fn export_ips(&self) -> (r: Result<Vec<Vec<String>>, WatcherError>)
        ensures
            r matches Ok(records) ==> records@.len() >= 1 && records@[0]@.len() == 4,
            r matches Ok(records) ==> exists|x: Exchange|
                x.on() == self.spec_path() && #[trigger] x.handed() == (EXPORT_IPS_SQL@, Seq::<Param>::empty()) && spelled_rows(records@.skip(1), x.reply()),
            r matches Err(e) ==> e is Database,
    {
        self.export_query(EXPORT_IPS_SQL, &["system", "ip", "source", "baseline"])
    }

    /// Every baseline IP address: `system, ip, source`.
    pub fn export_baseline_ips(&self) -> (r: Result<Vec<Vec<String>>, WatcherError>)
        ensures
            r matches Ok(records) ==> records@.len() >= 1 && records@[0]@.len() == 3,
            r matches Ok(records) ==> exists|x: Exchange|
                x.on() == self.spec_path() && #[trigger] x.handed() == (EXPORT_BASELINE_IPS_SQL@, Seq::<Param>::empty()) && spelled_rows(records@.skip(1), x.reply()),
            r matches Err(e) ==> e is Database,
    {
        self.export_query(EXPORT_BASELINE_IPS_SQL, &["system", "ip", "source"])
    }

    /// Every domain name: `system, name, bind_ip, baseline`.
    pub fn export_names(&self) -> (r: Result<Vec<Vec<String>>, WatcherError>)
        ensures
            r matches Ok(records) ==> records@.len() >= 1 && records@[0]@.len() == 4,
            r matches Ok(records) ==> exists|x: Exchange|
                x.on() == self.spec_path() && #[trigger] x.handed() == (EXPORT_NAMES_SQL@, Seq::<Param>::empty()) && spelled_rows(records@.skip(1), x.reply()),
            r matches Err(e) ==> e is Database,
    {
        self.export_query(EXPORT_NAMES_SQL, &["system", "name", "bind_ip", "baseline"])
    }

    /// Every baseline domain name: `system, name, bind_ip`.
    pub fn export_baseline_names(&self) -> (r: Result<Vec<Vec<String>>, WatcherError>)
        ensures
            r matches Ok(records) ==> records@.len() >= 1 && records@[0]@.len() == 3,
            r matches Ok(records) ==> exists|x: Exchange|
                x.on() == self.spec_path() && #[trigger] x.handed() == (EXPORT_BASELINE_NAMES_SQL@, Seq::<Param>::empty()) && spelled_rows(records@.skip(1), x.reply()),
            r matches Err(e) ==> e is Database,
    {
        self.export_query(EXPORT_BASELINE_NAMES_SQL, &["system", "name", "bind_ip"])
    }
}

} // verus!
