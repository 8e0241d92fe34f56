//! Gathering everything the operations dashboard shows in one read.

use vstd::prelude::*;

use crate::error::WatcherError;
use crate::models::{
    DashboardAlert, DashboardAssetCounts, DashboardBatch, DashboardQueueCounts,
    DashboardSeverityCounts, DashboardSnapshot, DashboardStage,
};
use crate::text::{ascii_lower, lower_chars, chars_of, chars_eq_str};

use super::helpers::map_batch;
use super::sql::{self, SqlValue, int_of, text_of, opt_text_ok, opt_text_of, opt_view, Exchange, Param};
use super::types::Database;

verus! {

/// The dashboard bucket of an alert severity, compared without regard to
/// ASCII case: 0 critical, 1 high, 2 medium, 3 low, 4 anything else.
pub open spec fn severity_bucket(severity: Seq<char>) -> int {
    let s = ascii_lower(severity);
    if s == "critical"@ {
        0
    } else if s == "high"@ {
        1
    } else if s == "medium"@ {
        2
    } else if s == "low"@ {
        3
    } else {
        4
    }
}

/// The total count of the rows whose severity falls in `bucket`.
pub open spec fn bucket_total(rows: Seq<(String, i64)>, bucket: int) -> int
    decreases rows.len(),
{
    if rows.len() == 0 {
        0
    } else {
        bucket_total(rows.drop_last(), bucket) + if severity_bucket(rows.last().0@) == bucket {
            rows.last().1 as int
        } else {
            0
        }
    }
}

/// The counts hold the totals of each bucket.
pub open spec fn tallies(c: DashboardSeverityCounts, rows: Seq<(String, i64)>) -> bool {
    &&& c.critical == bucket_total(rows, 0)
    &&& c.high == bucket_total(rows, 1)
    &&& c.medium == bucket_total(rows, 2)
    &&& c.low == bucket_total(rows, 3)
    &&& c.other == bucket_total(rows, 4)
}

/// Every running total of every bucket fits an `i64`.
pub open spec fn tallies_fit(rows: Seq<(String, i64)>) -> bool {
    forall|k: int, b: int|
        0 <= k <= rows.len() && 0 <= b < 5 ==> i64::MIN <= #[trigger] bucket_total(rows.take(k), b)
            <= i64::MAX
}

/// The bucket of a severity.
pub fn severity_bucket_of(severity: &str) -> (b: u8)
    ensures
        b as int == severity_bucket(severity@),
        b < 5,
{
    let s = lower_chars(&chars_of(severity));
    if chars_eq_str(&s, "critical") {
        0
    } else if chars_eq_str(&s, "high") {
        1
    } else if chars_eq_str(&s, "medium") {
        2
    } else if chars_eq_str(&s, "low") {
        3
    } else {
        4
    }
}

/// Adds up `(severity, count)` rows by bucket; `None` when a total leaves
/// the range of `i64`.
pub fn tally_severities(rows: &Vec<(String, i64)>) -> (r: Option<DashboardSeverityCounts>)
    ensures
        match r {
            Some(c) => tallies(c, rows@),
            None => !tallies_fit(rows@),
        },
{
    let mut c = DashboardSeverityCounts { critical: 0, high: 0, medium: 0, low: 0, other: 0 };
    let mut i: usize = 0;
    assert(rows@.take(0) =~= Seq::<(String, i64)>::empty());
    while i < rows.len()
        invariant
            i <= rows@.len(),
            tallies(c, rows@.take(i as int)),
        decreases rows.len() - i,
    {
        let (severity, count) = &rows[i];
        let ghost t = rows@.take(i + 1);
        proof {
            assert(t.drop_last() =~= rows@.take(i as int));
            assert(t.last() == rows@[i as int]);
        }
        let bucket = severity_bucket_of(severity.as_str());
        let current = if bucket == 0 {
            c.critical
        } else if bucket == 1 {
            c.high
        } else if bucket == 2 {
            c.medium
        } else if bucket == 3 {
            c.low
        } else {
            c.other
        };
        let next = match current.checked_add(*count) {
            Some(n) => n,
            None => {
                proof {
                    assert(!(i64::MIN <= bucket_total(t, bucket as int) <= i64::MAX));
                    assert(rows@.take(i + 1) == t);
                }
                return None;
            },
        };
        if bucket == 0 {
            c.critical = next;
        } else if bucket == 1 {
            c.high = next;
        } else if bucket == 2 {
            c.medium = next;
        } else if bucket == 3 {
            c.low = next;
        } else {
            c.other = next;
        }
        i = i + 1;
    }
    assert(rows@.take(rows@.len() as int) =~= rows@);
    Some(c)
}

/// A count in a result row, zero when the row holds `NULL` there.
fn count_or_zero(row: &[SqlValue], i: usize) -> (r: Result<i64, WatcherError>)
    ensures
        match r {
            Ok(n) => i < row@.len() && count_cell(row@[i as int], n),
            Err(e) => e is Decode,
        },
{
    match sql::get_opt_int(row, i)? {
        Some(n) => Ok(n),
        None => Ok(0),
    }
}

/// A row `stage, status, started_at, ended_at, detail` decodes as `s`.
pub open spec fn stage_from_row(row: Seq<SqlValue>, s: DashboardStage) -> bool {
    &&& row.len() >= 5
    &&& text_of(row[0]) == Some(s.stage@)
    &&& text_of(row[1]) == Some(s.status@)
    &&& text_of(row[2]) == Some(s.started_at@)
    &&& opt_text_ok(row[3]) && opt_view(s.ended_at) == opt_text_of(row[3])
    &&& opt_text_ok(row[4]) && opt_view(s.detail) == opt_text_of(row[4])
}

/// A stage row has the column types its decoding needs.
pub open spec fn stage_row_ok(row: Seq<SqlValue>) -> bool {
    &&& row.len() >= 5
    &&& text_of(row[0]) is Some && text_of(row[1]) is Some && text_of(row[2]) is Some
    &&& opt_text_ok(row[3]) && opt_text_ok(row[4])
}

/// Decodes one stage row `stage, status, started_at, ended_at, detail`.
fn map_stage(row: &[SqlValue]) -> (r: Result<DashboardStage, WatcherError>)
    ensures
        match r {
            Ok(s) => stage_from_row(row@, s),
            Err(e) => e is Decode && !stage_row_ok(row@),
        },
{
    let stage = sql::get_text(row, 0)?;
    let status = sql::get_text(row, 1)?;
    let started_at = sql::get_text(row, 2)?;
    let ended_at = sql::get_opt_text(row, 3)?;
    let detail = sql::get_opt_text(row, 4)?;
    Ok(DashboardStage { stage, status, started_at, ended_at, detail })
}

/// A row `severity, kind, subject, system, created_at` decodes as `a`.
pub open spec fn recent_alert_from_row(row: Seq<SqlValue>, a: DashboardAlert) -> bool {
    &&& row.len() >= 5
    &&& text_of(row[0]) == Some(a.severity@)
    &&& text_of(row[1]) == Some(a.kind@)
    &&& text_of(row[2]) == Some(a.subject@)
    &&& opt_text_ok(row[3]) && opt_view(a.system_name) == opt_text_of(row[3])
    &&& text_of(row[4]) == Some(a.created_at@)
}

/// A recent-alert row has the column types its decoding needs.
pub open spec fn recent_alert_row_ok(row: Seq<SqlValue>) -> bool {
    &&& row.len() >= 5
    &&& text_of(row[0]) is Some && text_of(row[1]) is Some && text_of(row[2]) is Some
    &&& opt_text_ok(row[3]) && text_of(row[4]) is Some
}

/// Decodes one recent-alert row `severity, kind, subject, system, created_at`.
fn map_recent_alert(row: &[SqlValue]) -> (r: Result<DashboardAlert, WatcherError>)
    ensures
        match r {
            Ok(a) => recent_alert_from_row(row@, a),
            Err(e) => e is Decode && !recent_alert_row_ok(row@),
        },
{
    let severity = sql::get_text(row, 0)?;
    let kind = sql::get_text(row, 1)?;
    let subject = sql::get_text(row, 2)?;
    let system_name = sql::get_opt_text(row, 3)?;
    let created_at = sql::get_text(row, 4)?;
    Ok(DashboardAlert { severity, kind, subject, system_name, created_at })
}

/// The query of the asset totals.
pub const ASSET_COUNTS_SQL: &'static str = "SELECT
                (SELECT COUNT(*) FROM systems),
                (SELECT COUNT(*) FROM domains),
                (SELECT COUNT(*) FROM ip_addresses),
                (SELECT COUNT(*) FROM ports),
                (SELECT COUNT(*) FROM ports WHERE state = 'open'),
                (SELECT COUNT(*) FROM ports WHERE state = 'open' AND is_web = 1),
                (SELECT COUNT(*) FROM urls),
                (SELECT COUNT(*) FROM domains WHERE is_baseline = 1)
                  + (SELECT COUNT(*) FROM ip_addresses WHERE is_baseline = 1)
                  + (SELECT COUNT(*) FROM ports WHERE is_baseline = 1)
                  + (SELECT COUNT(*) FROM urls WHERE is_baseline = 1),
                (SELECT COUNT(*) FROM dict_paths WHERE enabled = 1)";

/// The query of the most recently started batch.
pub const LATEST_BATCH_SQL: &'static str = "SELECT id, status, started_at, ended_at, report_zip
             FROM batches ORDER BY started_at DESC LIMIT 1";

/// The query of the number of alerts of a batch.
pub const BATCH_ALERTS_SQL: &'static str = "SELECT COUNT(*) FROM alerts WHERE batch_id = ?1";

/// The query of the number of vulnerabilities of a batch.
pub const BATCH_VULNERABILITIES_SQL: &'static str = "SELECT COUNT(*) FROM vulnerabilities WHERE batch_id = ?1";

/// The query of the stages of a batch, in the order they started.
pub const BATCH_STAGES_SQL: &'static str = "SELECT stage, status, started_at, ended_at, detail
                 FROM batch_stages WHERE batch_id = ?1 ORDER BY started_at, stage";

/// The query of the alert counts of a batch by severity.
pub const BATCH_SEVERITIES_SQL: &'static str = "SELECT severity, COUNT(*) FROM alerts WHERE batch_id = ?1 GROUP BY severity";

/// The query of the work-queue totals.
pub const QUEUE_COUNTS_SQL: &'static str = "SELECT
                SUM(CASE WHEN status = 'pending' THEN 1 ELSE 0 END),
                SUM(CASE WHEN status = 'running' THEN 1 ELSE 0 END),
                SUM(CASE WHEN status = 'done' THEN 1 ELSE 0 END)
             FROM pending_work";

/// The query of the most recent alerts with their system names.
pub const RECENT_ALERTS_SQL: &'static str = "SELECT a.severity, a.kind, a.subject, s.name, a.created_at
             FROM alerts a LEFT JOIN systems s ON s.id = a.system_id
             ORDER BY a.created_at DESC LIMIT 8";

/// A query without parameters was asked of the database file `db`.
pub open spec fn asked_bare(db: Seq<char>, x: Exchange, sql: Seq<char>) -> bool {
    x.on() == db && x.handed() == (sql, Seq::<Param>::empty())
}

/// A query about one batch was asked of the database file `db`.
pub open spec fn asked_for_batch(db: Seq<char>, x: Exchange, sql: Seq<char>, batch_id: Seq<char>) -> bool {
    x.on() == db && x.handed() == (sql, seq![Param::Text(batch_id)])
}

/// The first row of a reply exists and its first column holds `n`.
pub open spec fn single_count(rows: Seq<Vec<SqlValue>>, n: i64) -> bool {
    rows.len() > 0 && rows[0]@.len() > 0 && int_of(rows[0]@[0]) == Some(n)
}

/// A row holds the nine asset totals in order.
pub open spec fn asset_counts_from_row(row: Seq<SqlValue>, a: DashboardAssetCounts) -> bool {
    &&& row.len() >= 9
    &&& int_of(row[0]) == Some(a.systems) && int_of(row[1]) == Some(a.domains)
    &&& int_of(row[2]) == Some(a.ips) && int_of(row[3]) == Some(a.ports)
    &&& int_of(row[4]) == Some(a.open_ports) && int_of(row[5]) == Some(a.web_services)
    &&& int_of(row[6]) == Some(a.urls) && int_of(row[7]) == Some(a.baseline_assets)
    &&& int_of(row[8]) == Some(a.dictionary_paths)
}

/// A count column, `NULL` read as zero.
pub open spec fn count_cell(v: SqlValue, n: i64) -> bool {
    (v is Null && n == 0) || int_of(v) == Some(n)
}

/// A row holds the pending, running and done totals.
pub open spec fn queue_counts_from_row(row: Seq<SqlValue>, q: DashboardQueueCounts) -> bool {
    row.len() >= 3 && count_cell(row[0], q.pending) && count_cell(row[1], q.running) && count_cell(
        row[2],
        q.done,
    )
}

/// A batch row `id, status, started_at, ended_at, report_zip` gives the
/// shown batch's identity and times.
pub open spec fn dashboard_batch_from_row(row: Seq<SqlValue>, b: DashboardBatch) -> bool {
    &&& row.len() >= 5
    &&& text_of(row[0]) == Some(b.id@)
    &&& text_of(row[1]) == Some(b.status@)
    &&& text_of(row[2]) == Some(b.started_at@)
    &&& opt_text_ok(row[3]) && opt_view(b.ended_at) == opt_text_of(row[3])
    &&& opt_text_ok(row[4])
}

/// A row `severity, count` reads as the pair.
pub open spec fn severity_pair(row: Seq<SqlValue>, pair: (String, i64)) -> bool {
    row.len() >= 2 && text_of(row[0]) == Some(pair.0@) && int_of(row[1]) == Some(pair.1)
}

/// Rows `severity, count` read as the pairs.
pub open spec fn severity_pairs(rows: Seq<Vec<SqlValue>>, pairs: Seq<(String, i64)>) -> bool {
    &&& rows.len() == pairs.len()
    &&& forall|i: int| 0 <= i < rows.len() ==> severity_pair(rows[i]@, #[trigger] pairs[i])
}

/// The per-batch part of a snapshot: for the latest batch `b`, its alert
/// and vulnerability counts, its stages, and the tally by severity of its
/// own alerts, each read by a query bound to its id.
pub open spec fn batch_part(db: Seq<char>, s: DashboardSnapshot, b: DashboardBatch, reads: Seq<Exchange>) -> bool {
    &&& reads.len() == 4
    &&& asked_for_batch(db, reads[0], BATCH_ALERTS_SQL@, b.id@) && single_count(reads[0].reply(), b.alerts)
    &&& asked_for_batch(db, reads[1], BATCH_VULNERABILITIES_SQL@, b.id@) && single_count(
        reads[1].reply(),
        b.vulnerabilities,
    )
    &&& asked_for_batch(db, reads[2], BATCH_STAGES_SQL@, b.id@) && s.stages@.len() == reads[2].reply().len()
        && forall|i: int| 0 <= i < s.stages@.len() ==> stage_from_row(reads[2].reply()[i]@, #[trigger] s.stages@[i])
    &&& asked_for_batch(db, reads[3], BATCH_SEVERITIES_SQL@, b.id@) && exists|pairs: Seq<(String, i64)>|
        #[trigger] severity_pairs(reads[3].reply(), pairs) && tallies(s.alert_severity, pairs)
}

/// A snapshot is what the replies to its queries decode to: the asset
/// totals, the latest batch (none when there is no batch, with no stages
/// and zero severities) with its per-batch part, the queue totals, and the
/// first eight recent alerts.
pub open spec fn snapshot_from(
    db: Seq<char>,
    s: DashboardSnapshot,
    assets: Exchange,
    latest: Exchange,
    reads: Seq<Exchange>,
    queue: Exchange,
    recent: Exchange,
) -> bool {
    &&& asked_bare(db, assets, ASSET_COUNTS_SQL@) && assets.reply().len() > 0 && asset_counts_from_row(
        assets.reply()[0]@,
        s.assets,
    )
    &&& asked_bare(db, latest, LATEST_BATCH_SQL@)
    &&& latest.reply().len() == 0 ==> s.latest_batch is None && s.stages@.len() == 0 && s.alert_severity
        == DashboardSeverityCounts { critical: 0, high: 0, medium: 0, low: 0, other: 0 }
    &&& latest.reply().len() > 0 ==> (s.latest_batch matches Some(b) && dashboard_batch_from_row(
        latest.reply()[0]@,
        b,
    ) && batch_part(db, s, b, reads))
    &&& asked_bare(db, queue, QUEUE_COUNTS_SQL@) && queue.reply().len() > 0 && queue_counts_from_row(
        queue.reply()[0]@,
        s.queue,
    )
    &&& asked_bare(db, recent, RECENT_ALERTS_SQL@) && s.recent_alerts@.len() == (if recent.reply().len() < 8 {
        recent.reply().len()
    } else {
        8
    }) && forall|i: int|
        0 <= i < s.recent_alerts@.len() ==> recent_alert_from_row(recent.reply()[i]@, #[trigger] s.recent_alerts@[i])
}

impl Database {
    /// Reads asset totals, the latest batch with its stages, alert and
    /// vulnerability counts and alert severities, the work-queue totals and
    /// the eight most recent alerts.
    pub fn dashboard_snapshot(&self) -> (r: Result<DashboardSnapshot, WatcherError>)
        ensures
            r matches Ok(s) ==> exists|assets: Exchange, latest: Exchange, reads: Seq<Exchange>, queue: Exchange, recent: Exchange|
                #[trigger] snapshot_from(self.spec_path(), s, assets, latest, reads, queue, recent),
            r matches Err(e) ==> e.is_storage(),
    {
        let conn = self.conn()?;
        let empty: Vec<SqlValue> = Vec::new();
        let asset_x = sql::ask(&conn, ASSET_COUNTS_SQL, &empty)?;
        assert(asset_x.handed() == (ASSET_COUNTS_SQL@, Seq::<Param>::empty()));
        let asset_rows = asset_x.rows();
        if asset_rows.len() == 0 {
            return Err(WatcherError::NoRows);
        }
        let a = &asset_rows[0];
        let assets = DashboardAssetCounts {
            systems: sql::get_int(a, 0)?,
            domains: sql::get_int(a, 1)?,
            ips: sql::get_int(a, 2)?,
            ports: sql::get_int(a, 3)?,
            open_ports: sql::get_int(a, 4)?,
            web_services: sql::get_int(a, 5)?,
            urls: sql::get_int(a, 6)?,
            baseline_assets: sql::get_int(a, 7)?,
            dictionary_paths: sql::get_int(a, 8)?,
        };
        let latest_x = sql::ask(&conn, LATEST_BATCH_SQL, &empty)?;
        assert(latest_x.handed() == (LATEST_BATCH_SQL@, Seq::<Param>::empty()));
        let batch_rows = latest_x.rows();
        let mut stages: Vec<DashboardStage> = Vec::new();
        let mut alert_severity = DashboardSeverityCounts {
            critical: 0,
            high: 0,
            medium: 0,
            low: 0,
            other: 0,
        };
        let ghost mut reads: Seq<Exchange> = Seq::empty();
        let latest_batch = if batch_rows.len() > 0 {
            let batch = map_batch(&batch_rows[0])?;
            let mut by_batch: Vec<SqlValue> = Vec::new();
            by_batch.push(sql::text_param(batch.id.as_str()));
            let alerts_x = sql::ask(&conn, BATCH_ALERTS_SQL, &by_batch)?;
            assert(alerts_x.handed() == (BATCH_ALERTS_SQL@, seq![Param::Text(batch.id@)]));
            let alerts = sql::single_int(alerts_x.rows())?;
            let vulns_x = sql::ask(&conn, BATCH_VULNERABILITIES_SQL, &by_batch)?;
            assert(vulns_x.handed() == (BATCH_VULNERABILITIES_SQL@, seq![Param::Text(batch.id@)]));
            let vulnerabilities = sql::single_int(vulns_x.rows())?;
            let stages_x = sql::ask(&conn, BATCH_STAGES_SQL, &by_batch)?;
            assert(stages_x.handed() == (BATCH_STAGES_SQL@, seq![Param::Text(batch.id@)]));
            let stage_rows = stages_x.rows();
            let mut i: usize = 0;
            while i < stage_rows.len()
                invariant
                    conn.db() == self.spec_path(),
                    i <= stage_rows@.len(),
                    stages@.len() == i,
                    forall|k: int| 0 <= k < i ==> stage_from_row(stage_rows@[k]@, #[trigger] stages@[k]),
                decreases stage_rows.len() - i,
            {
                stages.push(map_stage(&stage_rows[i])?);
                i = i + 1;
            }
            let severity_x = sql::ask(&conn, BATCH_SEVERITIES_SQL, &by_batch)?;
            assert(severity_x.handed() == (BATCH_SEVERITIES_SQL@, seq![Param::Text(batch.id@)]));
            let severity_rows = severity_x.rows();
            let mut pairs: Vec<(String, i64)> = Vec::new();
            let mut k: usize = 0;
            while k < severity_rows.len()
                invariant
                    conn.db() == self.spec_path(),
                    k <= severity_rows@.len(),
                    pairs@.len() == k,
                    forall|j: int| 0 <= j < k ==> severity_pair(severity_rows@[j]@, #[trigger] pairs@[j]),
                decreases severity_rows.len() - k,
            {
                let severity = sql::get_text(&severity_rows[k], 0)?;
                let count = sql::get_int(&severity_rows[k], 1)?;
                let ghost before = pairs@;
                pairs.push((severity, count));
                assert(forall|j: int| 0 <= j < k ==> pairs@[j] == before[j]);
                k = k + 1;
            }
            alert_severity = match tally_severities(&pairs) {
                Some(c) => c,
                None => {
                    return Err(WatcherError::Decode);
                },
            };
            proof {
                assert(severity_pairs(severity_x.reply(), pairs@));
                reads = seq![alerts_x, vulns_x, stages_x, severity_x];
            }
            Some(
                DashboardBatch {
                    id: batch.id,
                    status: batch.status,
                    started_at: batch.started_at,
                    ended_at: batch.ended_at,
                    alerts,
                    vulnerabilities,
                },
            )
        } else {
            None
        };
        let queue_x = sql::ask(&conn, QUEUE_COUNTS_SQL, &empty)?;
        assert(queue_x.handed() == (QUEUE_COUNTS_SQL@, Seq::<Param>::empty()));
        let queue_rows = queue_x.rows();
        if queue_rows.len() == 0 {
            return Err(WatcherError::NoRows);
        }
        let q = &queue_rows[0];
        let queue = DashboardQueueCounts {
            pending: count_or_zero(q, 0)?,
            running: count_or_zero(q, 1)?,
            done: count_or_zero(q, 2)?,
        };
        let recent_x = sql::ask(&conn, RECENT_ALERTS_SQL, &empty)?;
        assert(recent_x.handed() == (RECENT_ALERTS_SQL@, Seq::<Param>::empty()));
        let alert_rows = recent_x.rows();
        let mut recent_alerts: Vec<DashboardAlert> = Vec::new();
        let mut j: usize = 0;
        while j < alert_rows.len() && j < 8
            invariant
                conn.db() == self.spec_path(),
                j <= alert_rows@.len(),
                j <= 8,
                recent_alerts@.len() == j,
                forall|k: int| 0 <= k < j ==> recent_alert_from_row(alert_rows@[k]@, #[trigger] recent_alerts@[k]),
            decreases alert_rows.len() - j,
        {
            recent_alerts.push(map_recent_alert(&alert_rows[j])?);
            j = j + 1;
        }
        let s = DashboardSnapshot {
            generated_at: sql::now(),
            assets,
            latest_batch,
            stages,
            queue,
            alert_severity,
            recent_alerts,
        };
        assert(snapshot_from(self.spec_path(), s, asset_x, latest_x, reads, queue_x, recent_x));
        Ok(s)
    }
}

} // verus!
