//! Batch listings as printed lines.

use vstd::prelude::*;

use crate::db::Database;
use crate::db::helpers::{signed_decimal_string, signed_decimal};
use crate::error::WatcherError;
use crate::local_time::{rfc3339_to_local, optional_rfc3339_to_local, spec_to_local};
use crate::models::{BatchRow, BatchStatus};
use crate::search::views;
use crate::db::sql::{Exchange, Param};
use crate::db::cli_query::saturated;
use crate::db::helpers::batch_from_row;
use crate::db::lists::{batch_view, batch_status_from};

verus! {

/// The text of an optional time at the display offset (`-` when absent).
pub open spec fn optional_local(value: Option<String>, offset_seconds: int) -> Seq<char> {
    match value {
        Some(v) => spec_to_local(v@, offset_seconds),
        None => "-"@,
    }
}

/// One listed batch: id, status, start, end and report (`-` when none),
/// separated by tabs.
pub open spec fn batch_line_text(row: BatchRow, offset_seconds: int) -> Seq<char> {
    row.id@ + "\t"@ + row.status@ + "\t"@ + spec_to_local(row.started_at@, offset_seconds) + "\t"@
        + optional_local(row.ended_at, offset_seconds) + "\t"@ + match row.report_zip {
        Some(z) => z@,
        None => "-"@,
    }
}

/// The printed line of one batch.
pub fn batch_line(row: &BatchRow, offset_seconds: i32) -> (s: String)
    requires
        -86400 < offset_seconds < 86400,
    ensures
        s@ == batch_line_text(*row, offset_seconds as int),
{
    let ended = match &row.ended_at {
        Some(e) => Some(e.as_str()),
        None => None,
    };
    let report = match &row.report_zip {
        Some(z) => z.as_str(),
        None => "-",
    };
    row.id.clone().concat("\t").concat(row.status.as_str()).concat("\t").concat(
        rfc3339_to_local(row.started_at.as_str(), offset_seconds).as_str(),
    ).concat("\t").concat(optional_rfc3339_to_local(ended, offset_seconds).as_str()).concat(
        "\t",
    ).concat(report)
}

/// The rows SQLite answered on `db` to the listing of the thirty latest
/// batches.
pub open spec fn batches_listed(db: Seq<char>, rows: Seq<BatchRow>) -> bool {
    exists|x: Exchange|
        x.on() == db && #[trigger] x.handed() == (
            "SELECT id, status, started_at, ended_at, report_zip FROM batches ORDER BY started_at DESC LIMIT ?1"@,
            seq![Param::Integer(saturated(30))],
        ) && rows.len() == x.reply().len() && forall|i: int| 0 <= i < rows.len() ==> batch_from_row(x.reply()[i]@, #[trigger] rows[i])
}

/// The thirty latest batches, one tab-separated line each: id, status,
/// start and end (shown at `offset_seconds` from UTC), report (`-` when
/// none).
pub fn print_batches(db: &Database, offset_seconds: i32) -> (r: Result<Vec<String>, WatcherError>)
    requires
        -86400 < offset_seconds < 86400,
    ensures
        r matches Ok(lines) ==> exists|rows: Seq<BatchRow>|
            #[trigger] batches_listed(db.spec_path(), rows) && rows.len() == lines@.len() && forall|k: int|
                0 <= k < rows.len() ==> (#[trigger] lines@[k])@ == batch_line_text(rows[k], offset_seconds as int),
        r matches Err(e) ==> e.is_storage(),
{
    let rows = db.list_batches(30)?;
    assert(batches_listed(db.spec_path(), rows@));
    let mut lines: Vec<String> = Vec::new();
    let mut i: usize = 0;
    while i < rows.len()
        invariant
            i <= rows@.len(),
            lines@.len() == i,
            -86400 < offset_seconds < 86400,
            forall|k: int| 0 <= k < i ==> (#[trigger] lines@[k])@ == batch_line_text(rows@[k], offset_seconds as int),
        decreases rows.len() - i,
    {
        lines.push(batch_line(&rows[i], offset_seconds));
        i = i + 1;
    }
    assert(rows@.len() == lines@.len());
    Ok(lines)
}

/// The status lines of a batch: id, status, start, end, alert and
/// vulnerability counts, one `key=value` line each.
pub open spec fn status_lines_text(status: BatchStatus, offset_seconds: int) -> Seq<Seq<char>> {
    seq![
        "batch="@ + status.batch_id@,
        "status="@ + status.status@,
        "started_at="@ + spec_to_local(status.started_at@, offset_seconds),
        "ended_at="@ + optional_local(status.ended_at, offset_seconds),
        "alerts="@ + signed_decimal(status.alerts as int),
        "vulnerabilities="@ + signed_decimal(status.vulnerabilities as int),
    ]
}

/// The printed status lines of a batch.
pub fn status_lines(status: &BatchStatus, offset_seconds: i32) -> (lines: Vec<String>)
    requires
        -86400 < offset_seconds < 86400,
    ensures
        views(lines@) == status_lines_text(*status, offset_seconds as int),
{
    let ended = match &status.ended_at {
        Some(e) => Some(e.as_str()),
        None => None,
    };
    let mut lines: Vec<String> = Vec::new();
    lines.push(String::from_str("batch=").concat(status.batch_id.as_str()));
    lines.push(String::from_str("status=").concat(status.status.as_str()));
    lines.push(String::from_str("started_at=").concat(
        rfc3339_to_local(status.started_at.as_str(), offset_seconds).as_str(),
    ));
    lines.push(String::from_str("ended_at=").concat(optional_rfc3339_to_local(ended, offset_seconds).as_str()));
    lines.push(String::from_str("alerts=").concat(signed_decimal_string(status.alerts).as_str()));
    lines.push(String::from_str("vulnerabilities=").concat(
        signed_decimal_string(status.vulnerabilities).as_str(),
    ));
    assert(views(lines@) =~= status_lines_text(*status, offset_seconds as int));
    lines
}

/// The status of one batch (the latest when none is named), one
/// `key=value` line per fact.
pub fn print_batch_status(db: &Database, batch: Option<&str>, offset_seconds: i32) -> (r: Result<
    Vec<String>,
    WatcherError,
>)
    requires
        -86400 < offset_seconds < 86400,
    ensures
        r matches Ok(lines) ==> lines@.len() == 6 && exists|status: BatchStatus|
            views(lines@) == #[trigger] status_lines_text(status, offset_seconds as int) && (batch matches Some(b)
                ==> status.batch_id@ == b@) && exists|q: Exchange, a: Exchange, v: Exchange|
                #[trigger] batch_status_from(db.spec_path(), status, batch_view(batch), q, a, v),
        r matches Err(e) ==> e.is_storage(),
{
    let status = db.batch_status(batch)?;
    let lines = status_lines(&status, offset_seconds);
    assert(views(lines@) == status_lines_text(status, offset_seconds as int));
    Ok(lines)
}

} // verus!
