//! The web-path dictionary: import, listing, query, deletion and export.

use vstd::prelude::*;

use crate::error::WatcherError;

use super::cli_query::{limit_param, saturated, simple_query_sql, keyword_limit_params, text_row};
use super::helpers::{self, spec_normalize_path};
use super::sql::{self, text_of, SqlValue, Exchange, Param, fits, written, text_slot, committed, committed_among, only_among};
use super::cli_export::spelled_rows;
use super::types::Database;

verus! {

/// How many paths have a non-empty stored form.
pub open spec fn count_paths(paths: Seq<String>) -> nat
    decreases paths.len(),
{
    if paths.len() == 0 {
        0
    } else {
        count_paths(paths.drop_last()) + if spec_normalize_path(paths.last()@).len() > 0 {
            1nat
        } else {
            0nat
        }
    }
}

/// The statement that adds a path to the dictionary unless it is there.
pub const DICT_INSERT_SQL: &'static str = "INSERT OR IGNORE INTO dict_paths (id, path, enabled, created_at)
                     VALUES (?1, ?2, 1, ?3)";

/// The query of the enabled dictionary paths.
pub const DICT_LIST_SQL: &'static str = "SELECT path FROM dict_paths WHERE enabled = 1 ORDER BY path LIMIT ?1";

/// A row holds the path as its first column.
pub open spec fn path_row(row: Seq<SqlValue>, path: String) -> bool {
    row.len() > 0 && text_of(row[0]) == Some(path@)
}

/// The normalised path was added to the dictionary (unless already there).
pub open spec fn dict_path_written(db: Seq<char>, path: Seq<char>) -> bool {
    written(db, (DICT_INSERT_SQL@, seq![None, text_slot(spec_normalize_path(path)), None]))
}

impl Database {
    /// Adds the normalised form of every non-blank path to the dictionary in
    /// one transaction (paths already there are kept); returns how many
    /// paths were not blank.
    pub fn import_dict_paths(&self, paths: &[String]) -> (r: Result<usize, WatcherError>)
        ensures
            r matches Ok(n) ==> n == count_paths(paths@),
            r matches Ok(n) ==> forall|i: int|
                0 <= i < paths@.len() && spec_normalize_path((#[trigger] paths@[i])@).len() > 0 ==> dict_path_written(self.spec_path(), 
                    paths@[i]@,
                ),
            r matches Ok(_) ==> committed_among(self.spec_path(), set![DICT_INSERT_SQL@]),
            r matches Err(e) ==> e is Database,
    {
        let conn = self.conn()?;
        let mut tx = sql::begin(conn)?;
        let mut count: usize = 0;
        let mut i: usize = 0;
        while i < paths.len()
            invariant
                tx.db() == self.spec_path(),
                only_among(tx.log(), set![DICT_INSERT_SQL@]),
                i <= paths@.len(),
                count == count_paths(paths@.take(i as int)),
                count <= i,
                forall|k: int|
                    0 <= k < i && spec_normalize_path((#[trigger] paths@[k])@).len() > 0 ==> dict_path_written(self.spec_path(), 
                        paths@[k]@,
                    ),
            decreases paths.len() - i,
        {
            proof {
                assert(paths@.take(i + 1).drop_last() =~= paths@.take(i as int));
                assert(paths@.take(i + 1).last() == paths@[i as int]);
            }
            let normalized = helpers::normalize_path(paths[i].as_str());
            let chars = crate::text::chars_of(normalized.as_str());
            if chars.len() > 0 {
                let mut params: Vec<SqlValue> = Vec::new();
                params.push(SqlValue::Text(sql::new_id()));
                params.push(SqlValue::Text(normalized));
                params.push(SqlValue::Text(sql::now()));
                let x = sql::tx_perform(&mut tx, DICT_INSERT_SQL, &params)?;
                assert(fits(x.handed(), (DICT_INSERT_SQL@, seq![None, text_slot(spec_normalize_path(paths@[i as int]@)), None])));
                count = count + 1;
            }
            i = i + 1;
        }
        let ghost log = tx.log();
        sql::commit(tx)?;
        assert(committed(self.spec_path(), log));
        assert(paths@.take(paths@.len() as int) =~= paths@);
        Ok(count)
    }

    /// The enabled dictionary paths in order, at most `limit` of them.
    pub fn list_dict_paths(&self, limit: usize) -> (r: Result<Vec<String>, WatcherError>)
        ensures
            r matches Ok(v) ==> exists|x: Exchange|
                x.on() == self.spec_path() && #[trigger] x.handed() == (DICT_LIST_SQL@, seq![Param::Integer(saturated(limit))]) && v@.len()
                    == x.reply().len() && forall|k: int|
                    0 <= k < v@.len() ==> path_row(x.reply()[k]@, #[trigger] v@[k]),
            r matches Err(e) ==> e.is_storage(),
    {
        let conn = self.conn()?;
        let mut params: Vec<SqlValue> = Vec::new();
        params.push(limit_param(limit));
        let x = sql::ask(&conn, DICT_LIST_SQL, &params)?;
        assert(x.handed() == (DICT_LIST_SQL@, seq![Param::Integer(saturated(limit))]));
        let rows = x.rows();
        let mut out: Vec<String> = Vec::new();
        let mut i: usize = 0;
        while i < rows.len()
            invariant
                conn.db() == self.spec_path(),
                i <= rows@.len(),
                out@.len() == i,
                rows@ == x.reply(),
                forall|k: int| 0 <= k < i ==> path_row(rows@[k]@, #[trigger] out@[k]),
            decreases rows.len() - i,
        {
            let p = sql::get_text(&rows[i], 0)?;
            let ghost before = out@;
            out.push(p);
            assert(forall|k: int| 0 <= k < i ==> out@[k] == before[k]);
            i = i + 1;
        }
        Ok(out)
    }

    /// Dictionary paths containing `keyword`, one per line.
    pub fn query_dict_paths(&self, keyword: Option<&str>, limit: usize) -> (r: Result<
        Vec<Vec<String>>,
        WatcherError,
    >)
        ensures
            r matches Err(e) ==> e.is_storage(),
            r matches Ok(rows) ==> forall|i: int| 0 <= i < rows@.len() ==> (#[trigger] rows@[i])@.len() == 1,
            r matches Ok(rows) ==> exists|x: Exchange|
                x.on() == self.spec_path() && #[trigger] x.handed() == (simple_query_sql("dict_paths"@, "path"@), keyword_limit_params(keyword, limit)) && rows@.len()
                    == x.reply().len() && forall|i: int|
                    0 <= i < rows@.len() ==> text_row(x.reply()[i]@, 1, (#[trigger] rows@[i])@),
    {
        self.query_simple("dict_paths", "path", keyword, limit)
    }

    /// Removes a path (in its normalised form) from the dictionary.
    pub fn delete_dict_path(&self, path: &str) -> (r: Result<(), WatcherError>)
        ensures
            r matches Ok(()) ==> exists|x: Exchange|
                x.on() == self.spec_path() && #[trigger] x.handed() == ("DELETE FROM dict_paths WHERE path = ?1"@, seq![
                    Param::Text(spec_normalize_path(path@)),
                ]),
            r matches Err(e) ==> e is Database,
    {
        let conn = self.conn()?;
        let mut params: Vec<SqlValue> = Vec::new();
        params.push(SqlValue::Text(helpers::normalize_path(path)));
        let x = sql::perform(&conn, "DELETE FROM dict_paths WHERE path = ?1", &params)?;
        assert(x.handed() == ("DELETE FROM dict_paths WHERE path = ?1"@, seq![
            Param::Text(spec_normalize_path(path@)),
        ]));
        Ok(())
    }

    /// The records of a dictionary export: `path`, then every path in order.
    pub fn export_dict_paths(&self) -> (r: Result<Vec<Vec<String>>, WatcherError>)
        ensures
            r matches Ok(records) ==> records@.len() >= 1 && records@[0]@.len() == 1 && records@[0]@[0]@ == "path"@,
            r matches Ok(records) ==> exists|x: Exchange|
                x.on() == self.spec_path() && #[trigger] x.handed() == ("SELECT path FROM dict_paths ORDER BY path"@, Seq::<Param>::empty())
                    && spelled_rows(records@.skip(1), x.reply()),
            r matches Err(e) ==> e is Database,
    {
        self.export_query("SELECT path FROM dict_paths ORDER BY path", &["path"])
    }
}

} // verus!
