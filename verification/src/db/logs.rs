//! Application log writes, queries, export and cleanup.

use vstd::prelude::*;

use crate::error::WatcherError;
use crate::local_time;
use crate::models::LogRow;
use crate::text;

use super::cli_query::{limit_param, saturated, keyword_view};
use super::helpers::{self, like_pattern, log_from_row, spec_like_pattern};
use super::sql::{self, SqlValue, Exchange, Param, fits, written, text_slot, opt_slot, opt_str};
use super::types::Database;

verus! {

/// The level filter of a log query: the level in upper case, or none.
pub open spec fn level_filter(level: Option<&str>) -> Option<Seq<char>> {
    match level {
        Some(l) => Some(text::ascii_upper(l@)),
        None => None,
    }
}

/// SQLite answered the log query for the level filter (already in upper
/// case), keyword and limit on the database file `db` with rows that decode,
/// one for one and in order, as `logs`.
pub open spec fn logs_read(db: Seq<char>, level: Option<Seq<char>>, keyword: Option<Seq<char>>, limit: usize, logs: Seq<LogRow>) -> bool {
    exists|x: Exchange|
        x.on() == db && #[trigger] x.handed() == (LOG_QUERY_SQL@, seq![
            opt_slot(level).unwrap(),
            Param::Text(spec_like_pattern(keyword)),
            Param::Integer(saturated(limit)),
        ]) && logs.len() == x.reply().len() && forall|i: int| 0 <= i < logs.len() ==> log_from_row(x.reply()[i]@, #[trigger] logs[i])
}

/// The record of a log row in an export: its time at the display offset,
/// level, target, message and fields (empty when absent).
pub open spec fn log_record(row: LogRow, offset_seconds: int, record: Seq<String>) -> bool {
    &&& record.len() == 5
    &&& record[0]@ == local_time::spec_to_local(row.created_at@, offset_seconds)
    &&& record[1]@ == row.level@
    &&& record[2]@ == row.target@
    &&& record[3]@ == row.message@
    &&& record[4]@ == match row.fields {
        Some(f) => f@,
        None => Seq::<char>::empty(),
    }
}

/// The query of the newest log records of a level matching a pattern.
pub const LOG_QUERY_SQL: &'static str = "SELECT id, created_at, level, target, message, fields
             FROM logs
             WHERE (?1 IS NULL OR level = ?1)
               AND (message LIKE ?2 OR COALESCE(fields, '') LIKE ?2 OR target LIKE ?2)
             ORDER BY created_at DESC
             LIMIT ?3";

/// The statement that stores a log record.
pub const LOG_INSERT_SQL: &'static str = "INSERT INTO logs (id, created_at, level, target, message, fields)
             VALUES (?1, ?2, ?3, ?4, ?5, ?6)";

impl Database {
    /// Stores one log record.
    pub fn add_log(&self, level: &str, target: &str, message: &str, fields: Option<&str>) -> (r:
        Result<(), WatcherError>)
        ensures
            r matches Ok(()) ==> written(self.spec_path(), 
                (LOG_INSERT_SQL@, seq![
                    None,
                    None,
                    text_slot(level@),
                    text_slot(target@),
                    text_slot(message@),
                    opt_slot(opt_str(fields)),
                ]),
            ),
            r matches Err(e) ==> e is Database,
    {
        let conn = self.conn()?;
        let mut params: Vec<SqlValue> = Vec::new();
        params.push(SqlValue::Text(sql::new_id()));
        params.push(SqlValue::Text(sql::now()));
        params.push(sql::text_param(level));
        params.push(sql::text_param(target));
        params.push(sql::text_param(message));
        params.push(sql::opt_text(fields));
        let x = sql::perform(&conn, LOG_INSERT_SQL, &params)?;
        assert(fits(x.handed(), (LOG_INSERT_SQL@, seq![
            None,
            None,
            text_slot(level@),
            text_slot(target@),
            text_slot(message@),
            opt_slot(opt_str(fields)),
        ])));
        Ok(())
    }

    /// The newest log records of the given level (any case) whose message,
    /// fields or target contain `keyword`, at most `limit` of them.
    pub fn query_logs(&self, level: Option<&str>, keyword: Option<&str>, limit: usize) -> (r:
        Result<Vec<LogRow>, WatcherError>)
        ensures
            r matches Ok(v) ==> logs_read(self.spec_path(), level_filter(level), keyword_view(keyword), limit, v@),
            r matches Err(e) ==> e.is_storage(),
    {
        let level_param = match level {
            Some(l) => {
                let chars = text::chars_of(l);
                let upper = text::upper_chars(&chars);
                SqlValue::Text(text::string_of(&upper))
            },
            None => SqlValue::Null,
        };
        let pattern = like_pattern(keyword);
        let conn = self.conn()?;
        let mut params: Vec<SqlValue> = Vec::new();
        params.push(level_param);
        params.push(SqlValue::Text(pattern));
        params.push(limit_param(limit));
        let x = sql::ask(&conn, LOG_QUERY_SQL, &params)?;
        assert(x.handed() == (LOG_QUERY_SQL@, seq![
            opt_slot(level_filter(level)).unwrap(),
            Param::Text(spec_like_pattern(keyword_view(keyword))),
            Param::Integer(saturated(limit)),
        ]));
        helpers::map_logs(x.rows())
    }

    /// The records of a log export: a header line, then one line per
    /// matching record with its time at the display offset.
    pub fn export_logs(
        &self,
        level: Option<&str>,
        keyword: Option<&str>,
        limit: usize,
        offset_seconds: i32,
    ) -> (r: Result<Vec<Vec<String>>, WatcherError>)
        requires
            -86400 < offset_seconds < 86400,
        ensures
            r matches Err(e) ==> e.is_storage(),
            r matches Ok(records) ==> records@.len() >= 1 && records@[0]@.len() == 5 && records@[0]@[0]@ == "created_at"@
                && records@[0]@[1]@ == "level"@ && records@[0]@[2]@ == "target"@ && records@[0]@[3]@ == "message"@
                && records@[0]@[4]@ == "fields"@,
            r matches Ok(records) ==> exists|logs: Seq<LogRow>|
                #[trigger] logs_read(self.spec_path(), level_filter(level), keyword_view(keyword), limit, logs)
                    && records@.len() == logs.len() + 1 && forall|i: int|
                    0 <= i < logs.len() ==> log_record(logs[i], offset_seconds as int, #[trigger] records@.skip(1)[i]@),
    {
        let logs = self.query_logs(level, keyword, limit)?;
        let mut records: Vec<Vec<String>> = Vec::new();
        records.push(helpers::header_strings(&["created_at", "level", "target", "message", "fields"]));
        let mut i: usize = 0;
        while i < logs.len()
            invariant
                i <= logs@.len(),
                -86400 < offset_seconds < 86400,
                records@.len() == i + 1,
                records@[0]@.len() == 5 && records@[0]@[0]@ == "created_at"@ && records@[0]@[1]@ == "level"@
                    && records@[0]@[2]@ == "target"@ && records@[0]@[3]@ == "message"@ && records@[0]@[4]@ == "fields"@,
                forall|k: int| 0 <= k < i ==> log_record(logs@[k], offset_seconds as int, #[trigger] records@.skip(1)[k]@),
            decreases logs.len() - i,
        {
            let row = &logs[i];
            let mut record: Vec<String> = Vec::new();
            record.push(local_time::rfc3339_to_local(row.created_at.as_str(), offset_seconds));
            record.push(row.level.clone());
            record.push(row.target.clone());
            record.push(row.message.clone());
            record.push(match &row.fields {
                Some(f) => f.clone(),
                None => String::new(),
            });
            proof {
                reveal_strlit("");
            }
            assert(log_record(logs@[i as int], offset_seconds as int, record@));
            let ghost before = records@;
            records.push(record);
            assert(records@.skip(1) =~= before.skip(1).push(record));
            i = i + 1;
        }
        Ok(records)
    }

    /// Deletes the log records created before `before` (all of them when
    /// absent); returns how many went.
    pub fn clear_logs(&self, before: Option<&str>) -> (r: Result<usize, WatcherError>)
        ensures
            r matches Ok(n) ==> exists|x: Exchange|
                x.on() == self.spec_path() && #[trigger] x.handed() == match before {
                    Some(b) => ("DELETE FROM logs WHERE created_at < ?1"@, seq![Param::Text(b@)]),
                    None => ("DELETE FROM logs"@, Seq::<Param>::empty()),
                } && x.count() == n,
            r matches Err(e) ==> e is Database,
    {
        let conn = self.conn()?;
        match before {
            Some(b) => {
                let mut params: Vec<SqlValue> = Vec::new();
                params.push(sql::text_param(b));
                let x = sql::perform(&conn, "DELETE FROM logs WHERE created_at < ?1", &params)?;
                assert(x.handed() == ("DELETE FROM logs WHERE created_at < ?1"@, seq![Param::Text(b@)]));
                Ok(x.changed())
            },
            None => {
                let empty: Vec<SqlValue> = Vec::new();
                let x = sql::perform(&conn, "DELETE FROM logs", &empty)?;
                assert(x.handed() == ("DELETE FROM logs"@, Seq::<Param>::empty()));
                Ok(x.changed())
            },
        }
    }
}

} // verus!
