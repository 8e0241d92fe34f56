//! The vulnerability stage: which URLs it checks, how often it reports
//! progress, and the URL a deferred check stands for.

use vstd::prelude::*;

use crate::config::AppConfig;
use crate::db::{Database, PendingWorkItem};
use crate::db::sql::{Exchange, Param, text_slot, written, int_of};
use crate::db::batches::{WORK_QUEUE_SQL, WORK_TAKE_SQL, work_from_row};
use crate::db::cli_query::saturated;
use crate::error::WatcherError;
use crate::models::UrlAsset;

use super::vuln_sourcemap::{is_sourcemap_input_url, sourcemap_input};

verus! {

/// The URLs worth checking, in order.
pub open spec fn eligible_urls(urls: Seq<UrlAsset>) -> Seq<UrlAsset>
    decreases urls.len(),
{
    if urls.len() == 0 {
        Seq::empty()
    } else {
        let prev = eligible_urls(urls.drop_last());
        if sourcemap_input(urls.last().url@) {
            prev.push(urls.last())
        } else {
            prev
        }
    }
}

/// The URLs one batch checks: the scripts and source maps among `urls`, in
/// order, at most `max_urls` of them.
pub fn select_vuln_urls(urls: Vec<UrlAsset>, max_urls: usize) -> (r: Vec<UrlAsset>)
    ensures
        r@ == eligible_urls(urls@).take(
            if eligible_urls(urls@).len() <= max_urls {
                eligible_urls(urls@).len() as int
            } else {
                max_urls as int
            },
        ),
{
    let ghost all = urls@;
    let mut kept: Vec<UrlAsset> = Vec::new();
    let mut rest = urls;
    let ghost mut taken: int = 0;
    assert(all.take(0) =~= Seq::<UrlAsset>::empty());
    assert(all.skip(0) =~= all);
    while rest.len() > 0
        invariant
            0 <= taken <= all.len(),
            rest@ == all.skip(taken),
            kept@ == eligible_urls(all.take(taken)),
        decreases rest.len(),
    {
        let asset = rest.remove(0);
        proof {
            assert(asset == all[taken]);
            assert(all.take(taken + 1).drop_last() =~= all.take(taken));
            assert(all.take(taken + 1).last() == all[taken]);
            assert(all.skip(taken).skip(1) =~= all.skip(taken + 1));
            taken = taken + 1;
        }
        if is_sourcemap_input_url(asset.url.as_str()) {
            kept.push(asset);
        }
    }
    assert(taken == all.len());
    assert(all.take(taken) =~= all);
    let ghost full = kept@;
    assert(full == eligible_urls(all));
    if kept.len() > max_urls {
        kept.truncate(max_urls);
    } else {
        assert(kept@ =~= full.take(full.len() as int));
    }
    kept
}

/// How many URLs pass between two progress reports: every URL up to 20,
/// then one in a hundred but at least every 20th.
pub fn vuln_scan_progress_interval(url_count: usize) -> (n: usize)
    ensures
        n == if url_count <= 20 {
            if url_count < 1 {
                1
            } else {
                url_count
            }
        } else if url_count / 100 < 20 {
            20
        } else {
            url_count / 100
        },
        n >= 1,
{
    if url_count <= 20 {
        if url_count < 1 {
            1
        } else {
            url_count
        }
    } else if url_count / 100 < 20 {
        20
    } else {
        url_count / 100
    }
}

/// Small scans report every URL.
pub fn should_log_vuln_url_detail(total_urls: usize) -> (b: bool)
    ensures
        b == (total_urls <= 20),
{
    total_urls <= 20
}

/// Progress is reported at the last URL and every `interval` URLs.
pub fn should_log_vuln_scan_progress(completed: usize, total: usize, interval: usize) -> (b: bool)
    ensures
        b == (completed == total || completed % (if interval < 1 {
            1usize
        } else {
            interval
        }) == 0),
{
    let step = if interval < 1 {
        1
    } else {
        interval
    };
    completed == total || completed % step == 0
}

/// Milliseconds after which a URL's check counts as slow: three HTTP
/// timeouts, at least half a minute.
pub fn slow_vuln_url_threshold(config: &AppConfig) -> (ms: u64)
    requires
        config.probe.http_timeout_ms * 3 <= u64::MAX,
    ensures
        ms == if config.probe.http_timeout_ms < 500 {
            if 1500 < 30_000 { 30_000 } else { 1500 }
        } else if config.probe.http_timeout_ms * 3 < 30_000 {
            30_000
        } else {
            (config.probe.http_timeout_ms * 3) as u64
        },
{
    let tripled = config.http_timeout() * 3;
    if tripled < 30_000 {
        30_000
    } else {
        tripled
    }
}

/// The URL a deferred check stands for: the work item's target under its
/// system, with the work item's id.
pub fn pending_asset(work: PendingWorkItem) -> (a: UrlAsset)
    ensures
        a.id == work.id,
        a.system_id == work.system_id,
        a.url == work.target,
        a.system_name@.len() == 0,
        a.source@ == "pending"@,
        a.status_code is None,
        a.value_score == 0,
        !a.is_baseline,
{
    UrlAsset {
        id: work.id,
        system_id: work.system_id,
        system_name: String::new(),
        url: work.target,
        source: String::from_str("pending"),
        status_code: None,
        value_score: 0,
        is_baseline: false,
    }
}

/// SQLite answered on `db` that the batch's stop flag is `stop`.
pub open spec fn stop_answered(db: Seq<char>, batch_id: Seq<char>, stop: bool) -> bool {
    exists|x: Exchange|
        x.on() == db && #[trigger] x.handed() == ("SELECT stop_requested FROM batches WHERE id = ?1"@, seq![
            Param::Text(batch_id),
        ]) && x.reply().len() > 0 && x.reply()[0]@.len() > 0 && int_of(x.reply()[0]@[0]) is Some && stop == (int_of(
            x.reply()[0]@[0],
        ).unwrap() == 1)
}

/// The next deferred check of the vulnerability stage to replay: none when
/// the batch was asked to stop, else the most urgent pending `vuln_scan`
/// item, if any (taken, so marked running).
pub fn next_pending_vuln(db: &Database, batch_id: &str) -> (r: Result<Option<PendingWorkItem>, WatcherError>)
    ensures
        r matches Ok(Some(_)) ==> stop_answered(db.spec_path(), batch_id@, false),
        r matches Ok(Some(item)) ==> exists|x: Exchange|
            x.on() == db.spec_path() && #[trigger] x.handed() == (WORK_TAKE_SQL@, seq![Param::Text("vuln_scan"@), Param::Integer(saturated(1))])
                && x.reply().len() > 0 && work_from_row(x.reply()[x.reply().len() - 1]@, item),
        r matches Ok(None) ==> stop_answered(db.spec_path(), batch_id@, true) || exists|x: Exchange|
            x.on() == db.spec_path() && #[trigger] x.handed() == (WORK_TAKE_SQL@, seq![Param::Text("vuln_scan"@), Param::Integer(saturated(1))])
                && x.reply().len() == 0,
        r matches Err(e) ==> e.is_storage(),
{
    if db.should_stop_batch(batch_id)? {
        return Ok(None);
    }
    let mut items = db.take_pending_work("vuln_scan", 1)?;
    let ghost taken = items@;
    let item = items.pop();
    proof {
        if taken.len() > 0 {
            assert(work_from_row(
                (choose|x: Exchange| x.on() == db.spec_path() && #[trigger] x.handed() == (WORK_TAKE_SQL@, seq![Param::Text("vuln_scan"@), Param::Integer(saturated(1))])
                    && taken.len() == x.reply().len() && forall|k: int|
                    0 <= k < taken.len() ==> work_from_row(x.reply()[k]@, #[trigger] taken[k]) && written(db.spec_path(),
                        (crate::db::batches::WORK_RUNNING_SQL@, seq![None, text_slot(taken[k].id@)]),
                    )).reply()[taken.len() - 1]@,
                taken[taken.len() - 1],
            ));
        }
    }
    Ok(item)
}

/// Whether a URL of the vulnerability stage is put off because the batch
/// was asked to stop (a failed read of the flag counts as not asked). Put
/// off, it is queued as pending `vuln_scan` work with priority 5; the
/// result then tells whether queueing succeeded (a failure is ignored).
pub fn defer_vuln_url(db: &Database, batch_id: &str, system_id: &str, url: &str) -> (r: Option<bool>)
    ensures
        r is Some ==> stop_answered(db.spec_path(), batch_id@, true),
        r == Some(true) ==> written(db.spec_path(), (WORK_QUEUE_SQL@, seq![
            None,
            text_slot(batch_id@),
            text_slot(system_id@),
            text_slot("vuln_scan"@),
            text_slot(url@),
            Some(Param::Integer(5)),
            None,
        ])),
{
    match db.should_stop_batch(batch_id) {
        Ok(true) => {
            match db.add_pending_work(batch_id, system_id, "vuln_scan", url, 5) {
                Ok(()) => Some(true),
                Err(_) => Some(false),
            }
        },
        _ => None,
    }
}

} // verus!
