//! Aggregate scan-progress pacing.

use vstd::prelude::*;

verus! {

/// The interval between aggregated progress logs for a scan of `total` items.
pub open spec fn spec_scan_progress_interval(total: int) -> int {
    if total <= 100 {
        if total < 1 { 1 } else { total }
    } else {
        if total / 100 < 100 { 100 } else { total / 100 }
    }
}

/// Computes the interval for aggregated scan-progress logs: every item when
/// `total` is at most 100, otherwise about 1% of the total and at least 100.
pub fn scan_progress_interval(total: usize) -> (interval: usize)
    ensures
        interval == spec_scan_progress_interval(total as int),
        interval >= 1,
{
    if total <= 100 {
        if total < 1 { 1 } else { total }
    } else {
        let hundredth = total / 100;
        if hundredth < 100 { 100 } else { hundredth }
    }
}

/// Whether a scan that has completed `completed` of `total` items should emit
/// an aggregated progress log for the given interval.
pub open spec fn spec_should_log_scan_progress(completed: int, total: int, interval: int) -> bool {
    completed == total || completed % (if interval < 1 { 1 } else { interval }) == 0
}

/// Returns whether the completed count should emit an aggregated progress log:
/// when everything is done, or when `completed` is a multiple of the interval.
pub fn should_log_scan_progress(completed: usize, total: usize, interval: usize) -> (log: bool)
    ensures
        log == spec_should_log_scan_progress(completed as int, total as int, interval as int),
{
    let step = if interval < 1 { 1 } else { interval };
    completed == total || completed % step == 0
}

} // verus!
