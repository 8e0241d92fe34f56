//! Asset queries, deletions and baseline marking addressed by table and
//! column, as the command line uses them.

use vstd::prelude::*;

use crate::error::WatcherError;
use crate::text;

use super::helpers::{self, cell_text, like_pattern, spec_like_pattern};
use super::sql::{self, int_of, opt_view, text_of, SqlValue, Exchange, Param};
use super::types::Database;

verus! {

/// The statement that deletes the rows of `table` whose `column` equals
/// its one parameter.
pub open spec fn delete_value_sql(table: Seq<char>, column: Seq<char>) -> Seq<char> {
    "DELETE FROM "@ + table + " WHERE "@ + column + " = ?1"@
}

/// The statement that deletes the rows of `table` of the system named by its
/// first parameter whose `column` equals its second.
pub open spec fn delete_system_value_sql(table: Seq<char>, column: Seq<char>) -> Seq<char> {
    "DELETE FROM "@ + table + " WHERE system_id = (SELECT id FROM systems WHERE name = ?1) AND "@
        + column + " = ?2"@
}

/// The statement that sets the baseline flag (first parameter) of the row of
/// `table` whose id is the second parameter.
pub open spec fn set_baseline_id_sql(table: Seq<char>) -> Seq<char> {
    "UPDATE "@ + table + " SET is_baseline = ?1 WHERE id = ?2"@
}

/// The statement that sets the baseline flag (first parameter) of the rows of
/// `table` of the system named by the second parameter whose `column` equals
/// the third.
pub open spec fn set_baseline_system_value_sql(table: Seq<char>, column: Seq<char>) -> Seq<char> {
    "UPDATE "@ + table
        + " SET is_baseline = ?1 WHERE system_id = (SELECT id FROM systems WHERE name = ?2) AND "@
        + column + " = ?3"@
}

/// The query of `system, value, baseline flag` for the rows of `table` whose
/// `column` matches the pattern (first parameter), ordered by system and
/// value, at most the limit (second parameter).
pub open spec fn joined_query_sql(table: Seq<char>, column: Seq<char>) -> Seq<char> {
    "SELECT s.name, t."@ + column + ", t.is_baseline FROM "@ + table
        + " t JOIN systems s ON s.id = t.system_id WHERE t."@ + column + " LIKE ?1 ORDER BY s.name, t."@
        + column + " LIMIT ?2"@
}

/// The parameters of a keyword query: the `LIKE` pattern of the keyword and
/// the saturated limit.
pub open spec fn keyword_limit_params(keyword: Option<&str>, limit: usize) -> Seq<Param> {
    seq![Param::Text(spec_like_pattern(keyword_view(keyword))), Param::Integer(saturated(limit))]
}

/// The query of `column` of the rows of `table` that match the pattern
/// (first parameter), in order, at most the limit (second parameter).
pub open spec fn simple_query_sql(table: Seq<char>, column: Seq<char>) -> Seq<char> {
    "SELECT "@ + column + " FROM "@ + table + " WHERE "@ + column + " LIKE ?1 ORDER BY "@ + column + " LIMIT ?2"@
}

/// The query of `system, value` for the baseline rows of `table` whose
/// `column` or system name matches the pattern, ordered by system and value.
pub open spec fn baseline_joined_query_sql(table: Seq<char>, column: Seq<char>) -> Seq<char> {
    "SELECT s.name, t."@ + column + " FROM "@ + table
        + " t JOIN systems s ON s.id = t.system_id WHERE t.is_baseline = 1 AND (t."@ + column
        + " LIKE ?1 OR s.name LIKE ?1) ORDER BY s.name, t."@ + column + " LIMIT ?2"@
}

/// The query of ports matching a pattern by number or IP.
pub const QUERY_PORTS_SQL: &'static str = "SELECT s.name, COALESCE(i.ip, '-'), p.port, p.state, COALESCE(p.service, '-'), COALESCE(p.scheme, '-'), p.is_baseline
             FROM ports p
             JOIN systems s ON s.id = p.system_id
             LEFT JOIN ip_addresses i ON i.id = p.ip_id
             WHERE CAST(p.port AS TEXT) LIKE ?1 OR COALESCE(i.ip, '') LIKE ?1
             ORDER BY s.name, i.ip, p.port LIMIT ?2";

/// The query of baseline ports matching a pattern by number, IP or system.
pub const QUERY_BASELINE_PORTS_SQL: &'static str = "SELECT s.name, COALESCE(i.ip, '-'), p.port, p.state, COALESCE(p.service, '-'), COALESCE(p.scheme, '-')
             FROM ports p
             JOIN systems s ON s.id = p.system_id
             LEFT JOIN ip_addresses i ON i.id = p.ip_id
             WHERE p.is_baseline = 1 AND (CAST(p.port AS TEXT) LIKE ?1 OR COALESCE(i.ip, '') LIKE ?1 OR s.name LIKE ?1)
             ORDER BY s.name, i.ip, p.port LIMIT ?2";

/// The stored form of a baseline flag.
pub open spec fn flag(b: bool) -> i64 {
    if b {
        1
    } else {
        0
    }
}

/// The keyword of an optional filter, as a character sequence.
pub open spec fn keyword_view(keyword: Option<&str>) -> Option<Seq<char>> {
    match keyword {
        Some(k) => Some(k@),
        None => None,
    }
}

/// A result row spells as `system, value, baseline-flag-text`.
pub open spec fn joined_row(row: Seq<SqlValue>, out: Seq<String>) -> bool {
    &&& row.len() >= 3 && out.len() == 3
    &&& text_of(row[0]) == Some(out[0]@)
    &&& text_of(row[1]) == Some(out[1]@)
    &&& int_of(row[2]) is Some
    &&& out[2]@ == (if int_of(row[2]).unwrap() == 1 { "true"@ } else { "false"@ })
}

/// A row limit as stored in a query parameter: saturated at `i64::MAX`.
pub open spec fn saturated(limit: usize) -> i64 {
    if limit as int > i64::MAX as int {
        i64::MAX
    } else {
        limit as i64
    }
}

/// The row limit bound as a query parameter (saturating at `i64::MAX`).
pub fn limit_param(limit: usize) -> (v: SqlValue)
    ensures
        v == SqlValue::Integer(saturated(limit)),
{
    if limit as u128 > i64::MAX as u128 {
        SqlValue::Integer(i64::MAX)
    } else {
        SqlValue::Integer(limit as i64)
    }
}

/// The parameters `pattern, limit` of the keyword queries.
fn pattern_limit(keyword: Option<&str>, limit: usize) -> (p: Vec<SqlValue>)
    ensures
        p@.len() == 2,
        text_of(p@[0]) == Some(spec_like_pattern(keyword_view(keyword))),
        p@[1] == SqlValue::Integer(saturated(limit)),
{
    let pattern = like_pattern(keyword);
    let mut p: Vec<SqlValue> = Vec::new();
    p.push(SqlValue::Text(pattern));
    p.push(limit_param(limit));
    p
}

/// Spells a `system, value, is_baseline` row.
pub fn map_joined_row(row: &[SqlValue]) -> (r: Result<Vec<String>, WatcherError>)
    ensures
        r matches Err(e) ==> e is Decode,
        r matches Ok(out) ==> joined_row(row@, out@),
{
    let system = sql::get_text(row, 0)?;
    let value = sql::get_text(row, 1)?;
    let flag = sql::get_int(row, 2)?;
    let mut out: Vec<String> = Vec::new();
    out.push(system);
    out.push(value);
    out.push(String::from_str(helpers::bool_text(flag == 1)));
    Ok(out)
}

/// A result row spells as its first `width` text columns.
pub open spec fn text_row(row: Seq<SqlValue>, width: int, out: Seq<String>) -> bool {
    &&& row.len() >= width && out.len() == width
    &&& forall|i: int| 0 <= i < width ==> text_of(row[i]) == Some((#[trigger] out[i])@)
}

/// Spells the first `width` columns of a row, each of which must be text.
pub fn map_text_row(row: &[SqlValue], width: usize) -> (r: Result<Vec<String>, WatcherError>)
    ensures
        r matches Err(e) ==> e is Decode,
        r matches Ok(out) ==> text_row(row@, width as int, out@),
{
    let mut out: Vec<String> = Vec::new();
    let mut i: usize = 0;
    while i < width
        invariant
            i <= width,
            out@.len() == i,
            i > 0 ==> row@.len() >= i,
            forall|k: int| 0 <= k < i ==> text_of(row@[k]) == Some((#[trigger] out@[k])@),
        decreases width - i,
    {
        let s = sql::get_text(row, i)?;
        out.push(s);
        i = i + 1;
    }
    if width > row.len() {
        return Err(sql::column_type_error());
    }
    Ok(out)
}

/// Every result row spelled with `map_joined_row`.
fn map_joined_rows(rows: &[Vec<SqlValue>]) -> (r: Result<Vec<Vec<String>>, WatcherError>)
    ensures
        r matches Err(e) ==> e is Decode,
        r matches Ok(v) ==> v@.len() == rows@.len() && forall|i: int|
            0 <= i < v@.len() ==> joined_row(rows@[i]@, (#[trigger] v@[i])@),
{
    let mut out: Vec<Vec<String>> = Vec::new();
    let mut i: usize = 0;
    while i < rows.len()
        invariant
            i <= rows@.len(),
            out@.len() == i,
            forall|k: int| 0 <= k < i ==> joined_row(rows@[k]@, (#[trigger] out@[k])@),
        decreases rows.len() - i,
    {
        out.push(map_joined_row(&rows[i])?);
        i = i + 1;
    }
    Ok(out)
}

/// Every result row spelled with `map_text_row`.
fn map_text_rows(rows: &[Vec<SqlValue>], width: usize) -> (r: Result<
    Vec<Vec<String>>,
    WatcherError,
>)
    ensures
        r matches Err(e) ==> e is Decode,
        r matches Ok(v) ==> v@.len() == rows@.len() && forall|i: int|
            0 <= i < v@.len() ==> text_row(rows@[i]@, width as int, (#[trigger] v@[i])@),
{
    let mut out: Vec<Vec<String>> = Vec::new();
    let mut i: usize = 0;
    while i < rows.len()
        invariant
            i <= rows@.len(),
            out@.len() == i,
            forall|k: int| 0 <= k < i ==> text_row(rows@[k]@, width as int, (#[trigger] out@[k])@),
        decreases rows.len() - i,
    {
        out.push(map_text_row(&rows[i], width)?);
        i = i + 1;
    }
    Ok(out)
}

/// A port query row spells as `system, ip, port, state, service, scheme`
/// and, when `with_flag`, the baseline flag text.
pub open spec fn port_query_row(row: Seq<SqlValue>, with_flag: bool, out: Seq<String>) -> bool {
    &&& row.len() >= (if with_flag { 7int } else { 6int })
    &&& out.len() == (if with_flag { 7int } else { 6int })
    &&& text_of(row[0]) == Some(out[0]@)
    &&& text_of(row[1]) == Some(out[1]@)
    &&& int_of(row[2]) is Some && out[2]@ == helpers::signed_decimal(int_of(row[2]).unwrap() as int)
    &&& text_of(row[3]) == Some(out[3]@)
    &&& text_of(row[4]) == Some(out[4]@)
    &&& text_of(row[5]) == Some(out[5]@)
    &&& with_flag ==> int_of(row[6]) is Some && out[6]@ == (if int_of(row[6]).unwrap() == 1 {
        "true"@
    } else {
        "false"@
    })
}

/// Spells a port query row.
pub fn map_port_query_row(row: &[SqlValue], with_flag: bool) -> (r: Result<
    Vec<String>,
    WatcherError,
>)
    ensures
        r matches Err(e) ==> e is Decode,
        r matches Ok(out) ==> port_query_row(row@, with_flag, out@),
{
    let system = sql::get_text(row, 0)?;
    let ip = sql::get_text(row, 1)?;
    let port = sql::get_int(row, 2)?;
    let state = sql::get_text(row, 3)?;
    let service = sql::get_text(row, 4)?;
    let scheme = sql::get_text(row, 5)?;
    let mut out: Vec<String> = Vec::new();
    out.push(system);
    out.push(ip);
    out.push(helpers::signed_decimal_string(port));
    out.push(state);
    out.push(service);
    out.push(scheme);
    if with_flag {
        let flag = sql::get_int(row, 6)?;
        out.push(String::from_str(helpers::bool_text(flag == 1)));
    }
    Ok(out)
}

/// Every port query row spelled with `map_port_query_row`.
fn map_port_query_rows(rows: &[Vec<SqlValue>], with_flag: bool) -> (r: Result<
    Vec<Vec<String>>,
    WatcherError,
>)
    ensures
        r matches Err(e) ==> e is Decode,
        r matches Ok(v) ==> v@.len() == rows@.len() && forall|i: int|
            0 <= i < v@.len() ==> port_query_row(rows@[i]@, with_flag, (#[trigger] v@[i])@),
{
    let mut out: Vec<Vec<String>> = Vec::new();
    let mut i: usize = 0;
    while i < rows.len()
        invariant
            i <= rows@.len(),
            out@.len() == i,
            forall|k: int| 0 <= k < i ==> port_query_row(rows@[k]@, with_flag, (#[trigger] out@[k])@),
        decreases rows.len() - i,
    {
        out.push(map_port_query_row(&rows[i], with_flag)?);
        i = i + 1;
    }
    Ok(out)
}

impl Database {
    /// Lists URLs whose text contains `keyword`: `system, url, baseline`.
    pub fn query_urls(&self, keyword: Option<&str>, limit: usize) -> (r: Result<
        Vec<Vec<String>>,
        WatcherError,
    >)
        ensures
            r matches Err(e) ==> e.is_storage(),
            r matches Ok(rows) ==> forall|i: int| 0 <= i < rows@.len() ==> (#[trigger] rows@[i])@.len() == 3,
            r matches Ok(rows) ==> exists|x: Exchange|
                x.on() == self.spec_path() && #[trigger] x.handed() == (joined_query_sql("urls"@, "url"@), keyword_limit_params(keyword, limit))
                    && rows@.len() == x.reply().len() && forall|i: int|
                    0 <= i < rows@.len() ==> joined_row(x.reply()[i]@, (#[trigger] rows@[i])@),
    {
        self.query_joined("urls", "url", keyword, limit)
    }

    /// Lists baseline URLs whose text or system contains `keyword`:
    /// `system, url`.
    pub fn query_baseline_urls(&self, keyword: Option<&str>, limit: usize) -> (r: Result<
        Vec<Vec<String>>,
        WatcherError,
    >)
        ensures
            r matches Err(e) ==> e.is_storage(),
            r matches Ok(rows) ==> forall|i: int| 0 <= i < rows@.len() ==> (#[trigger] rows@[i])@.len() == 2,
            r matches Ok(rows) ==> exists|x: Exchange|
                x.on() == self.spec_path() && #[trigger] x.handed() == (baseline_joined_query_sql("urls"@, "url"@), keyword_limit_params(keyword, limit)) && rows@.len()
                    == x.reply().len() && forall|i: int|
                    0 <= i < rows@.len() ==> text_row(x.reply()[i]@, 2, (#[trigger] rows@[i])@),
    {
        self.query_baseline_joined("urls", "url", keyword, limit)
    }

    /// Lists ports whose number or IP contains `keyword`:
    /// `system, ip, port, state, service, scheme, baseline`.
    pub fn query_ports(&self, keyword: Option<&str>, limit: usize) -> (r: Result<
        Vec<Vec<String>>,
        WatcherError,
    >)
        ensures
            r matches Err(e) ==> e.is_storage(),
            r matches Ok(rows) ==> forall|i: int| 0 <= i < rows@.len() ==> (#[trigger] rows@[i])@.len() == 7,
            r matches Ok(rows) ==> exists|x: Exchange|
                x.on() == self.spec_path() && #[trigger] x.handed() == (QUERY_PORTS_SQL@, keyword_limit_params(keyword, limit)) && rows@.len()
                    == x.reply().len() && forall|i: int|
                    0 <= i < rows@.len() ==> port_query_row(x.reply()[i]@, true, (#[trigger] rows@[i])@),
    {
        let params = pattern_limit(keyword, limit);
        let conn = self.conn()?;
        let x = sql::ask(&conn, QUERY_PORTS_SQL, &params)?;
        assert(x.handed() == (QUERY_PORTS_SQL@, keyword_limit_params(keyword, limit)));
        let rows = x.rows();
        let out = map_port_query_rows(rows, true)?;
        assert forall|i: int| 0 <= i < out@.len() implies (#[trigger] out@[i])@.len() == 7 by {
            assert(port_query_row(rows@[i]@, true, out@[i]@));
        }
        Ok(out)
    }

    /// Lists baseline ports whose number, IP or system contains `keyword`:
    /// `system, ip, port, state, service, scheme`.
    pub fn query_baseline_ports(&self, keyword: Option<&str>, limit: usize) -> (r: Result<
        Vec<Vec<String>>,
        WatcherError,
    >)
        ensures
            r matches Err(e) ==> e.is_storage(),
            r matches Ok(rows) ==> forall|i: int| 0 <= i < rows@.len() ==> (#[trigger] rows@[i])@.len() == 6,
            r matches Ok(rows) ==> exists|x: Exchange|
                x.on() == self.spec_path() && #[trigger] x.handed() == (QUERY_BASELINE_PORTS_SQL@, keyword_limit_params(keyword, limit)) && rows@.len()
                    == x.reply().len() && forall|i: int|
                    0 <= i < rows@.len() ==> port_query_row(x.reply()[i]@, false, (#[trigger] rows@[i])@),
    {
        let params = pattern_limit(keyword, limit);
        let conn = self.conn()?;
        let x = sql::ask(&conn, QUERY_BASELINE_PORTS_SQL, &params)?;
        assert(x.handed() == (QUERY_BASELINE_PORTS_SQL@, keyword_limit_params(keyword, limit)));
        let rows = x.rows();
        let out = map_port_query_rows(rows, false)?;
        assert forall|i: int| 0 <= i < out@.len() implies (#[trigger] out@[i])@.len() == 6 by {
            assert(port_query_row(rows@[i]@, false, out@[i]@));
        }
        Ok(out)
    }

    /// Lists IP addresses containing `keyword`: `system, ip, baseline`.
    pub fn query_ips(&self, keyword: Option<&str>, limit: usize) -> (r: Result<
        Vec<Vec<String>>,
        WatcherError,
    >)
        ensures
            r matches Err(e) ==> e.is_storage(),
            r matches Ok(rows) ==> forall|i: int| 0 <= i < rows@.len() ==> (#[trigger] rows@[i])@.len() == 3,
            r matches Ok(rows) ==> exists|x: Exchange|
                x.on() == self.spec_path() && #[trigger] x.handed() == (joined_query_sql("ip_addresses"@, "ip"@), keyword_limit_params(keyword, limit))
                    && rows@.len() == x.reply().len() && forall|i: int|
                    0 <= i < rows@.len() ==> joined_row(x.reply()[i]@, (#[trigger] rows@[i])@),
    {
        self.query_joined("ip_addresses", "ip", keyword, limit)
    }

    /// Lists baseline IP addresses whose text or system contains `keyword`:
    /// `system, ip`.
    pub fn query_baseline_ips(&self, keyword: Option<&str>, limit: usize) -> (r: Result<
        Vec<Vec<String>>,
        WatcherError,
    >)
        ensures
            r matches Err(e) ==> e.is_storage(),
            r matches Ok(rows) ==> forall|i: int| 0 <= i < rows@.len() ==> (#[trigger] rows@[i])@.len() == 2,
            r matches Ok(rows) ==> exists|x: Exchange|
                x.on() == self.spec_path() && #[trigger] x.handed() == (baseline_joined_query_sql("ip_addresses"@, "ip"@), keyword_limit_params(keyword, limit)) && rows@.len()
                    == x.reply().len() && forall|i: int|
                    0 <= i < rows@.len() ==> text_row(x.reply()[i]@, 2, (#[trigger] rows@[i])@),
    {
        self.query_baseline_joined("ip_addresses", "ip", keyword, limit)
    }

    /// Lists domain names containing `keyword`: `system, name, baseline`.
    pub fn query_names(&self, keyword: Option<&str>, limit: usize) -> (r: Result<
        Vec<Vec<String>>,
        WatcherError,
    >)
        ensures
            r matches Err(e) ==> e.is_storage(),
            r matches Ok(rows) ==> forall|i: int| 0 <= i < rows@.len() ==> (#[trigger] rows@[i])@.len() == 3,
            r matches Ok(rows) ==> exists|x: Exchange|
                x.on() == self.spec_path() && #[trigger] x.handed() == (joined_query_sql("domains"@, "name"@), keyword_limit_params(keyword, limit))
                    && rows@.len() == x.reply().len() && forall|i: int|
                    0 <= i < rows@.len() ==> joined_row(x.reply()[i]@, (#[trigger] rows@[i])@),
    {
        self.query_joined("domains", "name", keyword, limit)
    }

    /// Lists baseline domain names whose text or system contains `keyword`:
    /// `system, name`.
    pub fn query_baseline_names(&self, keyword: Option<&str>, limit: usize) -> (r: Result<
        Vec<Vec<String>>,
        WatcherError,
    >)
        ensures
            r matches Err(e) ==> e.is_storage(),
            r matches Ok(rows) ==> forall|i: int| 0 <= i < rows@.len() ==> (#[trigger] rows@[i])@.len() == 2,
            r matches Ok(rows) ==> exists|x: Exchange|
                x.on() == self.spec_path() && #[trigger] x.handed() == (baseline_joined_query_sql("domains"@, "name"@), keyword_limit_params(keyword, limit)) && rows@.len()
                    == x.reply().len() && forall|i: int|
                    0 <= i < rows@.len() ==> text_row(x.reply()[i]@, 2, (#[trigger] rows@[i])@),
    {
        self.query_baseline_joined("domains", "name", keyword, limit)
    }

    /// Lists `system, value, baseline` for the rows of `table` whose
    /// `column` contains `keyword`.
    pub fn query_joined(&self, table: &str, column: &str, keyword: Option<&str>, limit: usize) -> (r:
        Result<Vec<Vec<String>>, WatcherError>)
        ensures
            r matches Err(e) ==> e.is_storage(),
            r matches Ok(rows) ==> forall|i: int| 0 <= i < rows@.len() ==> (#[trigger] rows@[i])@.len() == 3,
            r matches Ok(rows) ==> exists|x: Exchange|
                x.on() == self.spec_path() && #[trigger] x.handed() == (joined_query_sql(table@, column@), keyword_limit_params(keyword, limit))
                    && rows@.len() == x.reply().len() && forall|i: int|
                    0 <= i < rows@.len() ==> joined_row(x.reply()[i]@, (#[trigger] rows@[i])@),
    {
        let params = pattern_limit(keyword, limit);
        let sql_text = String::from_str("SELECT s.name, t.").concat(column).concat(
            ", t.is_baseline FROM ",
        ).concat(table).concat(" t JOIN systems s ON s.id = t.system_id WHERE t.").concat(
            column,
        ).concat(" LIKE ?1 ORDER BY s.name, t.").concat(column).concat(" LIMIT ?2");
        let conn = self.conn()?;
        let x = sql::ask(&conn, sql_text.as_str(), &params)?;
        assert(x.handed() == (joined_query_sql(table@, column@), keyword_limit_params(keyword, limit)));
        let rows = x.rows();
        let out = map_joined_rows(rows)?;
        assert forall|i: int| 0 <= i < out@.len() implies (#[trigger] out@[i])@.len() == 3 by {
            assert(joined_row(rows@[i]@, out@[i]@));
        }
        Ok(out)
    }

    /// Lists `system, value` for the baseline rows of `table` whose `column`
    /// or system name contains `keyword`.
    pub fn query_baseline_joined(
        &self,
        table: &str,
        column: &str,
        keyword: Option<&str>,
        limit: usize,
    ) -> (r: Result<Vec<Vec<String>>, WatcherError>)
        ensures
            r matches Err(e) ==> e.is_storage(),
            r matches Ok(rows) ==> forall|i: int| 0 <= i < rows@.len() ==> (#[trigger] rows@[i])@.len() == 2,
            r matches Ok(rows) ==> exists|x: Exchange|
                x.on() == self.spec_path() && #[trigger] x.handed() == (baseline_joined_query_sql(table@, column@), keyword_limit_params(keyword, limit)) && rows@.len()
                    == x.reply().len() && forall|i: int|
                    0 <= i < rows@.len() ==> text_row(x.reply()[i]@, 2, (#[trigger] rows@[i])@),
    {
        let params = pattern_limit(keyword, limit);
        let sql_text = String::from_str("SELECT s.name, t.").concat(column).concat(" FROM ").concat(
            table,
        ).concat(" t JOIN systems s ON s.id = t.system_id WHERE t.is_baseline = 1 AND (t.").concat(
            column,
        ).concat(" LIKE ?1 OR s.name LIKE ?1) ORDER BY s.name, t.").concat(column).concat(
            " LIMIT ?2",
        );
        let conn = self.conn()?;
        let x = sql::ask(&conn, sql_text.as_str(), &params)?;
        assert(x.handed() == (baseline_joined_query_sql(table@, column@), keyword_limit_params(keyword, limit)));
        let rows = x.rows();
        let out = map_text_rows(rows, 2)?;
        assert forall|i: int| 0 <= i < out@.len() implies (#[trigger] out@[i])@.len() == 2 by {
            assert(text_row(rows@[i]@, 2, out@[i]@));
        }
        Ok(out)
    }

    /// Lists the single `column` of `table` for rows containing `keyword`.
    pub fn query_simple(&self, table: &str, column: &str, keyword: Option<&str>, limit: usize) -> (r:
        Result<Vec<Vec<String>>, WatcherError>)
        ensures
            r matches Err(e) ==> e.is_storage(),
            r matches Ok(rows) ==> forall|i: int| 0 <= i < rows@.len() ==> (#[trigger] rows@[i])@.len() == 1,
            r matches Ok(rows) ==> exists|x: Exchange|
                x.on() == self.spec_path() && #[trigger] x.handed() == (simple_query_sql(table@, column@), keyword_limit_params(keyword, limit)) && rows@.len()
                    == x.reply().len() && forall|i: int|
                    0 <= i < rows@.len() ==> text_row(x.reply()[i]@, 1, (#[trigger] rows@[i])@),
    {
        let params = pattern_limit(keyword, limit);
        let sql_text = String::from_str("SELECT ").concat(column).concat(" FROM ").concat(
            table,
        ).concat(" WHERE ").concat(column).concat(" LIKE ?1 ORDER BY ").concat(column).concat(
            " LIMIT ?2",
        );
        let conn = self.conn()?;
        let x = sql::ask(&conn, sql_text.as_str(), &params)?;
        assert(x.handed() == (simple_query_sql(table@, column@), keyword_limit_params(keyword, limit)));
        let rows = x.rows();
        let out = map_text_rows(rows, 1)?;
        assert forall|i: int| 0 <= i < out@.len() implies (#[trigger] out@[i])@.len() == 1 by {
            assert(text_row(rows@[i]@, 1, out@[i]@));
        }
        Ok(out)
    }

    /// Deletes every row of `table` whose `column` equals `value`.
    pub fn delete_by_value(&self, table: &str, column: &str, value: &str) -> (r: Result<
        (),
        WatcherError,
    >)
        ensures
            r matches Ok(()) ==> exists|x: Exchange|
                x.on() == self.spec_path() && #[trigger] x.handed() == (delete_value_sql(table@, column@), seq![Param::Text(value@)]),
            r matches Err(e) ==> e is Database,
    {
        let conn = self.conn()?;
        let sql_text = String::from_str("DELETE FROM ").concat(table).concat(" WHERE ").concat(
            column,
        ).concat(" = ?1");
        let mut params: Vec<SqlValue> = Vec::new();
        params.push(sql::text_param(value));
        let x = sql::perform(&conn, sql_text.as_str(), &params)?;
        assert(x.handed() == (delete_value_sql(table@, column@), seq![Param::Text(value@)]));
        Ok(())
    }

    /// Deletes the rows of `table` of the named system whose `column` equals
    /// `value`, and returns how many there were.
    pub fn delete_by_system_value(&self, table: &str, column: &str, system: &str, value: &str) -> (r:
        Result<usize, WatcherError>)
        ensures
            r matches Ok(n) ==> exists|x: Exchange|
                x.on() == self.spec_path() && #[trigger] x.handed() == (delete_system_value_sql(table@, column@), seq![
                    Param::Text(system@),
                    Param::Text(value@),
                ]) && x.count() == n,
            r matches Err(e) ==> e is Database,
    {
        let conn = self.conn()?;
        let sql_text = String::from_str("DELETE FROM ").concat(table).concat(
            " WHERE system_id = (SELECT id FROM systems WHERE name = ?1) AND ",
        ).concat(column).concat(" = ?2");
        let mut params: Vec<SqlValue> = Vec::new();
        params.push(sql::text_param(system));
        params.push(sql::text_param(value));
        let x = sql::perform(&conn, sql_text.as_str(), &params)?;
        assert(x.handed() == (delete_system_value_sql(table@, column@), seq![
            Param::Text(system@),
            Param::Text(value@),
        ]));
        Ok(x.changed())
    }

    /// Sets or clears the baseline flag of the row of `table` with `id`.
    pub fn set_baseline_by_id(&self, table: &str, id: &str, is_baseline: bool) -> (r: Result<
        (),
        WatcherError,
    >)
        ensures
            r matches Ok(()) ==> exists|x: Exchange|
                x.on() == self.spec_path() && #[trigger] x.handed() == (set_baseline_id_sql(table@), seq![
                    Param::Integer(flag(is_baseline)),
                    Param::Text(id@),
                ]),
            r matches Err(e) ==> e is Database,
    {
        let conn = self.conn()?;
        let sql_text = String::from_str("UPDATE ").concat(table).concat(
            " SET is_baseline = ?1 WHERE id = ?2",
        );
        let mut params: Vec<SqlValue> = Vec::new();
        params.push(SqlValue::Integer(if is_baseline { 1 } else { 0 }));
        params.push(sql::text_param(id));
        let x = sql::perform(&conn, sql_text.as_str(), &params)?;
        assert(x.handed() == (set_baseline_id_sql(table@), seq![
            Param::Integer(flag(is_baseline)),
            Param::Text(id@),
        ]));
        Ok(())
    }

    /// Sets or clears the baseline flag of the rows of `table` of the named
    /// system whose `column` equals `value`; returns how many changed.
    pub fn set_baseline_by_system_value(
        &self,
        table: &str,
        column: &str,
        system: &str,
        value: &str,
        is_baseline: bool,
    ) -> (r: Result<usize, WatcherError>)
        ensures
            r matches Ok(n) ==> exists|x: Exchange|
                x.on() == self.spec_path() && #[trigger] x.handed() == (set_baseline_system_value_sql(table@, column@), seq![
                    Param::Integer(flag(is_baseline)),
                    Param::Text(system@),
                    Param::Text(value@),
                ]) && x.count() == n,
            r matches Err(e) ==> e is Database,
    {
        let conn = self.conn()?;
        let sql_text = String::from_str("UPDATE ").concat(table).concat(
            " SET is_baseline = ?1 WHERE system_id = (SELECT id FROM systems WHERE name = ?2) AND ",
        ).concat(column).concat(" = ?3");
        let mut params: Vec<SqlValue> = Vec::new();
        params.push(SqlValue::Integer(if is_baseline { 1 } else { 0 }));
        params.push(sql::text_param(system));
        params.push(sql::text_param(value));
        let x = sql::perform(&conn, sql_text.as_str(), &params)?;
        assert(x.handed() == (set_baseline_system_value_sql(table@, column@), seq![
            Param::Integer(flag(is_baseline)),
            Param::Text(system@),
            Param::Text(value@),
        ]));
        Ok(x.changed())
    }
}

} // verus!
