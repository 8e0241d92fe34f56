//! Batch lifecycle, stages and the pending-work queue.

use vstd::prelude::*;

use crate::error::WatcherError;
use crate::models::BatchContext;

use super::cli_query::{limit_param, saturated};
use super::sql::{self, int_of, text_of, SqlValue, Exchange, Param, fits, written, text_slot, opt_slot, opt_str};
use super::types::{Database, PendingWorkItem};

verus! {

/// A result row decodes as a pending-work item.
pub open spec fn work_from_row(row: Seq<SqlValue>, w: PendingWorkItem) -> bool {
    &&& row.len() >= 3
    &&& text_of(row[0]) == Some(w.id@)
    &&& text_of(row[1]) == Some(w.system_id@)
    &&& text_of(row[2]) == Some(w.target@)
}

/// Decodes `id, system_id, target`.
pub fn map_work(row: &[SqlValue]) -> (r: Result<PendingWorkItem, WatcherError>)
    ensures
        r matches Ok(w) ==> work_from_row(row@, w),
        r matches Err(e) ==> e is Decode,
{
    let id = sql::get_text(row, 0)?;
    let system_id = sql::get_text(row, 1)?;
    let target = sql::get_text(row, 2)?;
    Ok(PendingWorkItem { id, system_id, target })
}

/// The statement that starts a batch.
pub const BATCH_INSERT_SQL: &'static str = "INSERT INTO batches (id, status, started_at) VALUES (?1, 'running', ?2)";

/// The statement that interrupts the running stages of running batches.
pub const INTERRUPT_STAGES_SQL: &'static str = "UPDATE batch_stages
             SET status = 'interrupted', ended_at = ?1, detail = ?2
             WHERE status = 'running'
               AND batch_id IN (SELECT id FROM batches WHERE status = 'running')";

/// The statement that interrupts running batches.
pub const INTERRUPT_BATCHES_SQL: &'static str = "UPDATE batches
             SET status = 'interrupted', ended_at = ?1, error = ?2, stop_requested = 1
             WHERE status = 'running'";

/// The statement that records the end of a batch.
pub const BATCH_FINISH_SQL: &'static str = "UPDATE batches SET status = ?1, ended_at = ?2, error = ?3 WHERE id = ?4";

/// The statement that (re)starts a stage of a batch.
pub const STAGE_START_SQL: &'static str = "INSERT INTO batch_stages (batch_id, stage, status, started_at, ended_at, detail)
             VALUES (?1, ?2, 'running', ?3, NULL, NULL)
             ON CONFLICT(batch_id, stage) DO UPDATE SET
                status = 'running', started_at = excluded.started_at, ended_at = NULL, detail = NULL";

/// The statement that records the end of a stage of a batch.
pub const STAGE_FINISH_SQL: &'static str = "UPDATE batch_stages
             SET status = ?1, ended_at = ?2, detail = ?3
             WHERE batch_id = ?4 AND stage = ?5";

/// The statement that records the report package of a batch.
pub const BATCH_REPORT_SQL: &'static str = "UPDATE batches SET report_zip = ?1 WHERE id = ?2";

/// The statement that queues (or re-queues) deferred work.
pub const WORK_QUEUE_SQL: &'static str = "INSERT INTO pending_work (id, batch_id, system_id, task_kind, target, status, priority, created_at, updated_at)
             VALUES (?1, ?2, ?3, ?4, ?5, 'pending', ?6, ?7, ?7)
             ON CONFLICT(task_kind, target) DO UPDATE SET batch_id = excluded.batch_id, system_id = excluded.system_id, status = 'pending', priority = MIN(pending_work.priority, excluded.priority), updated_at = excluded.updated_at";

/// The query of the most urgent pending work of a kind.
pub const WORK_TAKE_SQL: &'static str = "SELECT id, system_id, target FROM pending_work WHERE task_kind = ?1 AND status = 'pending' ORDER BY priority, created_at LIMIT ?2";

/// The statement that marks a work item running.
pub const WORK_RUNNING_SQL: &'static str = "UPDATE pending_work SET status = 'running', updated_at = ?1 WHERE id = ?2";

/// The statement that marks a work item done.
pub const WORK_DONE_SQL: &'static str = "UPDATE pending_work SET status = 'done', updated_at = ?1 WHERE id = ?2";

/// Running batches and their running stages were marked interrupted with
/// `reason`.
pub open spec fn interrupted(db: Seq<char>, reason: Seq<char>) -> bool {
    &&& written(db, (INTERRUPT_STAGES_SQL@, seq![None, text_slot(reason)]))
    &&& written(db, (INTERRUPT_BATCHES_SQL@, seq![None, text_slot(reason)]))
}

impl Database {
    /// Interrupts whatever batch is still marked running, then starts a new
    /// running batch and returns its id and start time.
    pub fn create_batch(&self) -> (r: Result<BatchContext, WatcherError>)
        ensures
            r matches Ok(b) ==> interrupted(self.spec_path(), "previous watcher process exited before finalizing batch"@) && written(self.spec_path(), 
                (BATCH_INSERT_SQL@, seq![text_slot(b.id@), text_slot(b.started_at@)]),
            ),
            r matches Err(e) ==> e.is_storage(),
    {
        self.interrupt_running_batches("previous watcher process exited before finalizing batch")?;
        let id = sql::new_id();
        let started_at = sql::now();
        let conn = self.conn()?;
        let mut params: Vec<SqlValue> = Vec::new();
        params.push(sql::text_param(id.as_str()));
        params.push(sql::text_param(started_at.as_str()));
        let x = sql::perform(&conn, BATCH_INSERT_SQL, &params)?;
        assert(fits(x.handed(), (BATCH_INSERT_SQL@, seq![text_slot(id@), text_slot(started_at@)])));
        Ok(BatchContext { id, started_at })
    }

    /// Marks running batches and their running stages as interrupted with
    /// `reason`; returns how many batches were interrupted.
    pub fn interrupt_running_batches(&self, reason: &str) -> (r: Result<usize, WatcherError>)
        ensures
            r matches Ok(n) ==> interrupted(self.spec_path(), reason@) && exists|x: Exchange|
                x.on() == self.spec_path() && fits(#[trigger] x.handed(), (INTERRUPT_BATCHES_SQL@, seq![None, text_slot(reason@)])) && x.count() == n,
            r matches Err(e) ==> e is Database,
    {
        let conn = self.conn()?;
        let mut params: Vec<SqlValue> = Vec::new();
        params.push(SqlValue::Text(sql::now()));
        params.push(sql::text_param(reason));
        let x = sql::perform(&conn, INTERRUPT_STAGES_SQL, &params)?;
        assert(fits(x.handed(), (INTERRUPT_STAGES_SQL@, seq![None, text_slot(reason@)])));
        let mut again: Vec<SqlValue> = Vec::new();
        again.push(SqlValue::Text(sql::now()));
        again.push(sql::text_param(reason));
        let y = sql::perform(&conn, INTERRUPT_BATCHES_SQL, &again)?;
        assert(fits(y.handed(), (INTERRUPT_BATCHES_SQL@, seq![None, text_slot(reason@)])));
        Ok(y.changed())
    }

    /// Records the final status (and error text) of a batch.
    pub fn finish_batch(&self, batch_id: &str, status: &str, error: Option<&str>) -> (r: Result<
        (),
        WatcherError,
    >)
        ensures
            r matches Ok(()) ==> written(self.spec_path(), 
                (BATCH_FINISH_SQL@, seq![text_slot(status@), None, opt_slot(opt_str(error)), text_slot(batch_id@)]),
            ),
            r matches Err(e) ==> e is Database,
    {
        let conn = self.conn()?;
        let mut params: Vec<SqlValue> = Vec::new();
        params.push(sql::text_param(status));
        params.push(SqlValue::Text(sql::now()));
        params.push(sql::opt_text(error));
        params.push(sql::text_param(batch_id));
        let x = sql::perform(&conn, BATCH_FINISH_SQL, &params)?;
        assert(fits(x.handed(), (BATCH_FINISH_SQL@, seq![text_slot(status@), None, opt_slot(opt_str(error)), text_slot(batch_id@)])));
        Ok(())
    }

    /// Marks a stage of a batch as running, restarting it when it ran before.
    pub fn start_batch_stage(&self, batch_id: &str, stage: &str) -> (r: Result<(), WatcherError>)
        ensures
            r matches Ok(()) ==> written(self.spec_path(), (STAGE_START_SQL@, seq![text_slot(batch_id@), text_slot(stage@), None])),
            r matches Err(e) ==> e is Database,
    {
        let conn = self.conn()?;
        let mut params: Vec<SqlValue> = Vec::new();
        params.push(sql::text_param(batch_id));
        params.push(sql::text_param(stage));
        params.push(SqlValue::Text(sql::now()));
        let x = sql::perform(&conn, STAGE_START_SQL, &params)?;
        assert(fits(x.handed(), (STAGE_START_SQL@, seq![text_slot(batch_id@), text_slot(stage@), None])));
        Ok(())
    }

    /// Records the final status (and detail) of a stage of a batch.
    pub fn finish_batch_stage(
        &self,
        batch_id: &str,
        stage: &str,
        status: &str,
        detail: Option<&str>,
    ) -> (r: Result<(), WatcherError>)
        ensures
            r matches Ok(()) ==> written(self.spec_path(), 
                (STAGE_FINISH_SQL@, seq![
                    text_slot(status@),
                    None,
                    opt_slot(opt_str(detail)),
                    text_slot(batch_id@),
                    text_slot(stage@),
                ]),
            ),
            r matches Err(e) ==> e is Database,
    {
        let conn = self.conn()?;
        let mut params: Vec<SqlValue> = Vec::new();
        params.push(sql::text_param(status));
        params.push(SqlValue::Text(sql::now()));
        params.push(sql::opt_text(detail));
        params.push(sql::text_param(batch_id));
        params.push(sql::text_param(stage));
        let x = sql::perform(&conn, STAGE_FINISH_SQL, &params)?;
        assert(fits(x.handed(), (STAGE_FINISH_SQL@, seq![
            text_slot(status@),
            None,
            opt_slot(opt_str(detail)),
            text_slot(batch_id@),
            text_slot(stage@),
        ])));
        Ok(())
    }

    /// Records the path of the report package of a batch.
    pub fn set_batch_report(&self, batch_id: &str, path: &str) -> (r: Result<(), WatcherError>)
        ensures
            r matches Ok(()) ==> written(self.spec_path(), (BATCH_REPORT_SQL@, seq![text_slot(path@), text_slot(batch_id@)])),
            r matches Err(e) ==> e is Database,
    {
        let conn = self.conn()?;
        let mut params: Vec<SqlValue> = Vec::new();
        params.push(sql::text_param(path));
        params.push(sql::text_param(batch_id));
        let x = sql::perform(&conn, BATCH_REPORT_SQL, &params)?;
        assert(fits(x.handed(), (BATCH_REPORT_SQL@, seq![text_slot(path@), text_slot(batch_id@)])));
        Ok(())
    }

    /// Asks the named batch (or every running batch) to stop.
    pub fn request_batch_stop(&self, batch: Option<&str>) -> (r: Result<(), WatcherError>)
        ensures
            r matches Ok(()) ==> exists|x: Exchange|
                x.on() == self.spec_path() && #[trigger] x.handed() == match batch {
                    Some(b) => ("UPDATE batches SET stop_requested = 1 WHERE id = ?1"@, seq![Param::Text(b@)]),
                    None => (
                        "UPDATE batches SET stop_requested = 1 WHERE status = 'running'"@,
                        Seq::<Param>::empty(),
                    ),
                },
            r matches Err(e) ==> e is Database,
    {
        let conn = self.conn()?;
        match batch {
            Some(b) => {
                let mut params: Vec<SqlValue> = Vec::new();
                params.push(sql::text_param(b));
                let x = sql::perform(&conn, "UPDATE batches SET stop_requested = 1 WHERE id = ?1", &params)?;
                assert(x.handed() == ("UPDATE batches SET stop_requested = 1 WHERE id = ?1"@, seq![
                    Param::Text(b@),
                ]));
            },
            None => {
                let empty: Vec<SqlValue> = Vec::new();
                let x = sql::perform(
                    &conn,
                    "UPDATE batches SET stop_requested = 1 WHERE status = 'running'",
                    &empty,
                )?;
                assert(x.handed() == (
                    "UPDATE batches SET stop_requested = 1 WHERE status = 'running'"@,
                    Seq::<Param>::empty(),
                ));
            },
        }
        Ok(())
    }

    /// Whether a stop was requested for the batch; an unknown batch is an
    /// error.
    pub fn should_stop_batch(&self, batch_id: &str) -> (r: Result<bool, WatcherError>)
        ensures
            r matches Ok(stop) ==> exists|x: Exchange|
                x.on() == self.spec_path() && #[trigger] x.handed() == ("SELECT stop_requested FROM batches WHERE id = ?1"@, seq![
                    Param::Text(batch_id@),
                ]) && x.reply().len() > 0 && x.reply()[0]@.len() > 0 && int_of(x.reply()[0]@[0]) is Some
                    && stop == (int_of(x.reply()[0]@[0]).unwrap() == 1),
            r matches Err(e) ==> e.is_storage(),
    {
        let conn = self.conn()?;
        let mut params: Vec<SqlValue> = Vec::new();
        params.push(sql::text_param(batch_id));
        let x = sql::ask(&conn, "SELECT stop_requested FROM batches WHERE id = ?1", &params)?;
        assert(x.handed() == ("SELECT stop_requested FROM batches WHERE id = ?1"@, seq![
            Param::Text(batch_id@),
        ]));
        let value = sql::single_int(x.rows())?;
        Ok(value == 1)
    }

    /// Queues deferred work; a target already queued for the same kind is
    /// re-queued with the lower of the two priorities.
    pub fn add_pending_work(
        &self,
        batch_id: &str,
        system_id: &str,
        task_kind: &str,
        target: &str,
        priority: i64,
    ) -> (r: Result<(), WatcherError>)
        ensures
            r matches Ok(()) ==> written(self.spec_path(), 
                (WORK_QUEUE_SQL@, seq![
                    None,
                    text_slot(batch_id@),
                    text_slot(system_id@),
                    text_slot(task_kind@),
                    text_slot(target@),
                    Some(Param::Integer(priority)),
                    None,
                ]),
            ),
            r matches Err(e) ==> e is Database,
    {
        let conn = self.conn()?;
        let mut params: Vec<SqlValue> = Vec::new();
        params.push(SqlValue::Text(sql::new_id()));
        params.push(sql::text_param(batch_id));
        params.push(sql::text_param(system_id));
        params.push(sql::text_param(task_kind));
        params.push(sql::text_param(target));
        params.push(SqlValue::Integer(priority));
        params.push(SqlValue::Text(sql::now()));
        let x = sql::perform(&conn, WORK_QUEUE_SQL, &params)?;
        assert(fits(x.handed(), (WORK_QUEUE_SQL@, seq![
            None,
            text_slot(batch_id@),
            text_slot(system_id@),
            text_slot(task_kind@),
            text_slot(target@),
            Some(Param::Integer(priority)),
            None,
        ])));
        Ok(())
    }

    /// Takes up to `limit` pending items of a kind (most urgent first) and
    /// marks every one of them running.
    pub fn take_pending_work(&self, task_kind: &str, limit: usize) -> (r: Result<
        Vec<PendingWorkItem>,
        WatcherError,
    >)
        ensures
            r matches Ok(items) ==> exists|x: Exchange|
                x.on() == self.spec_path() && #[trigger] x.handed() == (WORK_TAKE_SQL@, seq![Param::Text(task_kind@), Param::Integer(saturated(limit))])
                    && items@.len() == x.reply().len() && forall|k: int|
                    0 <= k < items@.len() ==> work_from_row(x.reply()[k]@, #[trigger] items@[k]) && written(self.spec_path(), 
                        (WORK_RUNNING_SQL@, seq![None, text_slot(items@[k].id@)]),
                    ),
            r matches Err(e) ==> e.is_storage(),
    {
        let conn = self.conn()?;
        let mut params: Vec<SqlValue> = Vec::new();
        params.push(sql::text_param(task_kind));
        params.push(limit_param(limit));
        let q = sql::ask(&conn, WORK_TAKE_SQL, &params)?;
        assert(q.handed() == (WORK_TAKE_SQL@, seq![Param::Text(task_kind@), Param::Integer(saturated(limit))]));
        let rows = q.rows();
        let mut items: Vec<PendingWorkItem> = Vec::new();
        let mut i: usize = 0;
        while i < rows.len()
            invariant
                conn.db() == self.spec_path(),
                i <= rows@.len(),
                items@.len() == i,
                forall|k: int| 0 <= k < i ==> work_from_row(rows@[k]@, #[trigger] items@[k]),
            decreases rows.len() - i,
        {
            items.push(map_work(&rows[i])?);
            i = i + 1;
        }
        let mut j: usize = 0;
        while j < items.len()
            invariant
                conn.db() == self.spec_path(),
                j <= items@.len(),
                forall|k: int| 0 <= k < j ==> written(self.spec_path(), (WORK_RUNNING_SQL@, seq![None, text_slot((#[trigger] items@[k]).id@)])),
            decreases items.len() - j,
        {
            let mut update: Vec<SqlValue> = Vec::new();
            update.push(SqlValue::Text(sql::now()));
            update.push(sql::text_param(items[j].id.as_str()));
            let x = sql::perform(&conn, WORK_RUNNING_SQL, &update)?;
            assert(fits(x.handed(), (WORK_RUNNING_SQL@, seq![None, text_slot(items@[j as int].id@)])));
            j = j + 1;
        }
        Ok(items)
    }

    /// Marks a pending-work item done.
    pub fn finish_pending_work(&self, id: &str) -> (r: Result<(), WatcherError>)
        ensures
            r matches Ok(()) ==> written(self.spec_path(), (WORK_DONE_SQL@, seq![None, text_slot(id@)])),
            r matches Err(e) ==> e is Database,
    {
        let conn = self.conn()?;
        let mut params: Vec<SqlValue> = Vec::new();
        params.push(SqlValue::Text(sql::now()));
        params.push(sql::text_param(id));
        let x = sql::perform(&conn, WORK_DONE_SQL, &params)?;
        assert(fits(x.handed(), (WORK_DONE_SQL@, seq![None, text_slot(id@)])));
        Ok(())
    }
}

} // verus!
