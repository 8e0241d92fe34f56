//! The bookkeeping of a monitoring batch: how a stage, the batch and the
//! mail step are recorded, how an error chain is shown, and how long the
//! daemon sleeps between batches. Running the stages is the caller's.

use vstd::prelude::*;

use crate::db::Database;
use crate::db::batches::{BATCH_FINISH_SQL, STAGE_FINISH_SQL};
use crate::db::sql::{opt_slot, opt_str, text_slot, written};
use crate::error::WatcherError;
use crate::search::{join_with, views, join_strings};

verus! {

/// The status a finished stage gets: `completed`, or `failed` with the
/// error as its detail.
pub fn record_stage_outcome(db: &Database, batch_id: &str, stage: &str, error: Option<&str>) -> (r:
    Result<(), WatcherError>)
    ensures
        r matches Ok(()) ==> written(db.spec_path(), 
            (STAGE_FINISH_SQL@, seq![
                text_slot(if error is None { "completed"@ } else { "failed"@ }),
                None,
                opt_slot(opt_str(error)),
                text_slot(batch_id@),
                text_slot(stage@),
            ]),
        ),
        r matches Err(e) ==> e is Database,
{
    match error {
        None => db.finish_batch_stage(batch_id, stage, "completed", None),
        Some(detail) => db.finish_batch_stage(batch_id, stage, "failed", Some(detail)),
    }
}

/// Closes a batch: `completed`, or `failed` with the error.
pub fn record_batch_outcome(db: &Database, batch_id: &str, error: Option<&str>) -> (r: Result<
    (),
    WatcherError,
>)
    ensures
        r matches Ok(()) ==> written(db.spec_path(), 
            (BATCH_FINISH_SQL@, seq![
                text_slot(if error is None { "completed"@ } else { "failed"@ }),
                None,
                opt_slot(opt_str(error)),
                text_slot(batch_id@),
            ]),
        ),
        r matches Err(e) ==> e is Database,
{
    match error {
        None => db.finish_batch(batch_id, "completed", None),
        Some(detail) => db.finish_batch(batch_id, "failed", Some(detail)),
    }
}

/// Closes the mail step: a failed mail only warns, with its error chain.
pub fn record_email_outcome(db: &Database, batch_id: &str, error_chain: Option<&str>) -> (r: Result<
    (),
    WatcherError,
>)
    ensures
        r matches Ok(()) ==> written(db.spec_path(), 
            (STAGE_FINISH_SQL@, seq![
                text_slot(if error_chain is None { "completed"@ } else { "warning"@ }),
                None,
                opt_slot(opt_str(error_chain)),
                text_slot(batch_id@),
                text_slot("email_notification"@),
            ]),
        ),
        r matches Err(e) ==> e is Database,
{
    match error_chain {
        None => db.finish_batch_stage(batch_id, "email_notification", "completed", None),
        Some(chain) => db.finish_batch_stage(batch_id, "email_notification", "warning", Some(chain)),
    }
}

/// An error and its causes on one line.
pub fn format_error_chain(messages: &Vec<String>) -> (s: String)
    ensures
        s@ == join_with(views(messages@), " | caused by: "@),
{
    join_strings(messages, " | caused by: ")
}

/// Milliseconds to sleep before the next batch: what is left of the
/// interval, nothing when the batch took longer.
pub fn sleep_before_next(interval_ms: u64, elapsed_ms: u64) -> (ms: u64)
    ensures
        ms == if elapsed_ms < interval_ms {
            interval_ms - elapsed_ms
        } else {
            0
        },
{
    if elapsed_ms < interval_ms {
        interval_ms - elapsed_ms
    } else {
        0
    }
}

} // verus!
