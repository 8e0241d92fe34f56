//! Business systems: rename, deletion, summaries and export.

use vstd::prelude::*;

use crate::error::{self, WatcherError};
use crate::text::{self, trim};

use super::cli_query::{limit_param, keyword_limit_params};
use super::cli_export::spelled_rows;
use super::helpers::{self, like_pattern, signed_decimal};
use super::sql::{self, int_of, text_of, SqlValue, Exchange, Param};
use super::types::Database;

verus! {

/// A summary row spells as the system name, eight counts in decimal, and
/// the creation time.
pub open spec fn summary_row(row: Seq<SqlValue>, out: Seq<String>) -> bool {
    &&& row.len() >= 10 && out.len() == 10
    &&& text_of(row[0]) == Some(out[0]@)
    &&& forall|i: int| 1 <= i <= 8 ==> int_of(#[trigger] row[i]) is Some && out[i]@ == signed_decimal(
        int_of(row[i]).unwrap() as int,
    )
    &&& text_of(row[9]) == Some(out[9]@)
}

/// Spells a system summary row.
pub fn map_system_summary(row: &[SqlValue]) -> (r: Result<Vec<String>, WatcherError>)
    ensures
        r matches Ok(out) ==> summary_row(row@, out@),
        r matches Err(e) ==> e is Decode,
{
    let mut out: Vec<String> = Vec::new();
    out.push(sql::get_text(row, 0)?);
    let mut i: usize = 1;
    while i <= 8
        invariant
            1 <= i <= 9,
            out@.len() == i,
            text_of(row@[0]) == Some(out@[0]@),
            i > 1 ==> row@.len() >= i,
            forall|k: int| 1 <= k < i ==> int_of(#[trigger] row@[k]) is Some && out@[k]@ == signed_decimal(
                int_of(row@[k]).unwrap() as int,
            ),
        decreases 9 - i,
    {
        let n = sql::get_int(row, i)?;
        out.push(helpers::signed_decimal_string(n));
        i = i + 1;
    }
    out.push(sql::get_text(row, 9)?);
    Ok(out)
}

/// The per-system counts query: name, names, ips, ports, urls, the four
/// baseline counts, and the creation time.
pub const SYSTEM_SUMMARY_SQL: &'static str = "
    SELECT
        s.name,
        (SELECT COUNT(*) FROM domains d WHERE d.system_id = s.id) AS names,
        (SELECT COUNT(*) FROM ip_addresses i WHERE i.system_id = s.id) AS ips,
        (SELECT COUNT(*) FROM ports p WHERE p.system_id = s.id) AS ports,
        (SELECT COUNT(*) FROM urls u WHERE u.system_id = s.id) AS urls,
        (SELECT COUNT(*) FROM domains d WHERE d.system_id = s.id AND d.is_baseline = 1) AS baseline_names,
        (SELECT COUNT(*) FROM ip_addresses i WHERE i.system_id = s.id AND i.is_baseline = 1) AS baseline_ips,
        (SELECT COUNT(*) FROM ports p WHERE p.system_id = s.id AND p.is_baseline = 1) AS baseline_ports,
        (SELECT COUNT(*) FROM urls u WHERE u.system_id = s.id AND u.is_baseline = 1) AS baseline_urls,
        s.created_at
    FROM systems s
    WHERE s.name LIKE ?1
    ORDER BY s.name
    LIMIT ?2";

/// The same counts for every system, for export.
pub const SYSTEM_EXPORT_SQL: &'static str = "
    SELECT
        s.name,
        (SELECT COUNT(*) FROM domains d WHERE d.system_id = s.id) AS names,
        (SELECT COUNT(*) FROM ip_addresses i WHERE i.system_id = s.id) AS ips,
        (SELECT COUNT(*) FROM ports p WHERE p.system_id = s.id) AS ports,
        (SELECT COUNT(*) FROM urls u WHERE u.system_id = s.id) AS urls,
        (SELECT COUNT(*) FROM domains d WHERE d.system_id = s.id AND d.is_baseline = 1) AS baseline_names,
        (SELECT COUNT(*) FROM ip_addresses i WHERE i.system_id = s.id AND i.is_baseline = 1) AS baseline_ips,
        (SELECT COUNT(*) FROM ports p WHERE p.system_id = s.id AND p.is_baseline = 1) AS baseline_ports,
        (SELECT COUNT(*) FROM urls u WHERE u.system_id = s.id AND u.is_baseline = 1) AS baseline_urls,
        s.created_at
    FROM systems s
    ORDER BY s.name";

impl Database {
    /// Renames a system (both names trimmed); returns how many changed.
    pub fn rename_system(&self, old_name: &str, new_name: &str) -> (r: Result<usize, WatcherError>)
        ensures
            trim(old_name@).len() == 0 ==> (r matches Err(e) && e.is_invalid_with(
                "old system name must not be empty"@,
            )),
            trim(old_name@).len() > 0 && trim(new_name@).len() == 0 ==> (r matches Err(e)
                && e.is_invalid_with("new system name must not be empty"@)),
            trim(old_name@).len() > 0 && trim(new_name@).len() > 0 ==> (r matches Err(e)
                ==> e is Database),
            r matches Ok(n) ==> exists|x: Exchange|
                x.on() == self.spec_path() && #[trigger] x.handed() == ("UPDATE systems SET name = ?1 WHERE name = ?2"@, seq![
                    Param::Text(trim(new_name@)),
                    Param::Text(trim(old_name@)),
                ]) && x.count() == n,
    {
        let old_key = text::trimmed(old_name);
        let new_key = text::trimmed(new_name);
        if old_key.len() == 0 {
            return Err(error::invalid("old system name must not be empty"));
        }
        if new_key.len() == 0 {
            return Err(error::invalid("new system name must not be empty"));
        }
        let conn = self.conn()?;
        let mut params: Vec<SqlValue> = Vec::new();
        params.push(SqlValue::Text(text::string_of(&new_key)));
        params.push(SqlValue::Text(text::string_of(&old_key)));
        let x = sql::perform(&conn, "UPDATE systems SET name = ?1 WHERE name = ?2", &params)?;
        assert(x.handed() == ("UPDATE systems SET name = ?1 WHERE name = ?2"@, seq![
            Param::Text(trim(new_name@)),
            Param::Text(trim(old_name@)),
        ]));
        Ok(x.changed())
    }

    /// Deletes a system (name trimmed) with all its assets; returns how many
    /// systems went.
    pub fn delete_system(&self, name: &str) -> (r: Result<usize, WatcherError>)
        ensures
            trim(name@).len() == 0 ==> (r matches Err(e) && e.is_invalid_with(
                "system name must not be empty"@,
            )),
            trim(name@).len() > 0 ==> (r matches Err(e) ==> e is Database),
            r matches Ok(n) ==> exists|x: Exchange|
                x.on() == self.spec_path() && #[trigger] x.handed() == ("DELETE FROM systems WHERE name = ?1"@, seq![Param::Text(trim(name@))])
                    && x.count() == n,
    {
        let key = text::trimmed(name);
        if key.len() == 0 {
            return Err(error::invalid("system name must not be empty"));
        }
        let conn = self.conn()?;
        let mut params: Vec<SqlValue> = Vec::new();
        params.push(SqlValue::Text(text::string_of(&key)));
        let x = sql::perform(&conn, "DELETE FROM systems WHERE name = ?1", &params)?;
        assert(x.handed() == ("DELETE FROM systems WHERE name = ?1"@, seq![Param::Text(trim(name@))]));
        Ok(x.changed())
    }

    /// Per-system counts of the systems whose name contains `keyword`.
    pub fn query_systems(&self, keyword: Option<&str>, limit: usize) -> (r: Result<
        Vec<Vec<String>>,
        WatcherError,
    >)
        ensures
            r matches Ok(rows) ==> forall|i: int| 0 <= i < rows@.len() ==> (#[trigger] rows@[i])@.len() == 10,
            r matches Ok(rows) ==> exists|x: Exchange|
                x.on() == self.spec_path() && #[trigger] x.handed() == (SYSTEM_SUMMARY_SQL@, keyword_limit_params(keyword, limit)) && rows@.len()
                    == x.reply().len() && forall|k: int|
                    0 <= k < rows@.len() ==> summary_row(x.reply()[k]@, (#[trigger] rows@[k])@),
            r matches Err(e) ==> e.is_storage(),
    {
        let conn = self.conn()?;
        let mut params: Vec<SqlValue> = Vec::new();
        params.push(SqlValue::Text(like_pattern(keyword)));
        params.push(limit_param(limit));
        let x = sql::ask(&conn, SYSTEM_SUMMARY_SQL, &params)?;
        assert(x.handed() == (SYSTEM_SUMMARY_SQL@, keyword_limit_params(keyword, limit)));
        let rows = x.rows();
        let mut out: Vec<Vec<String>> = Vec::new();
        let mut i: usize = 0;
        while i < rows.len()
            invariant
                conn.db() == self.spec_path(),
                i <= rows@.len(),
                out@.len() == i,
                rows@ == x.reply(),
                forall|k: int| 0 <= k < i ==> summary_row(rows@[k]@, (#[trigger] out@[k])@),
            decreases rows.len() - i,
        {
            out.push(map_system_summary(&rows[i])?);
            i = i + 1;
        }
        assert forall|k: int| 0 <= k < out@.len() implies (#[trigger] out@[k])@.len() == 10 by {
            assert(summary_row(rows@[k]@, out@[k]@));
        }
        Ok(out)
    }

    /// The per-system counts of every system, with a header line.
    pub fn export_systems(&self) -> (r: Result<Vec<Vec<String>>, WatcherError>)
        ensures
            r matches Ok(records) ==> records@.len() >= 1 && records@[0]@.len() == 10,
            r matches Ok(records) ==> exists|x: Exchange|
                x.on() == self.spec_path() && #[trigger] x.handed() == (SYSTEM_EXPORT_SQL@, Seq::<Param>::empty()) && spelled_rows(
                    records@.skip(1),
                    x.reply(),
                ),
            r matches Err(e) ==> e is Database,
    {
        self.export_query(
            SYSTEM_EXPORT_SQL,
            &[
                "system",
                "names",
                "ips",
                "ports",
                "urls",
                "baseline_names",
                "baseline_ips",
                "baseline_ports",
                "baseline_urls",
                "created_at",
            ],
        )
    }
}

} // verus!
