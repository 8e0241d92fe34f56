//! The DNS stage: recording what a domain resolved to.

use vstd::prelude::*;

use crate::db::Database;
use crate::db::scans::{alert_template, resolution_recorded};
use crate::db::sql::{fits, Exchange};
use crate::search::views;
use crate::error::WatcherError;
use crate::models::DomainAsset;

verus! {

/// The resolution gave addresses and one of them is blank.
pub open spec fn has_blank_address(outcome: Result<Vec<String>, String>) -> bool {
    match outcome {
        Ok(ips) => exists|k: int| 0 <= k < ips@.len() && crate::text::trim(#[trigger] ips@[k]@).len() == 0,
        Err(_) => false,
    }
}

/// Records what resolving a domain gave: its addresses (stored, and an
/// alert when they changed), nothing for an empty answer, or a `low`
/// `dns_error` alert with the failure.
pub fn record_resolution(
    db: &Database,
    batch_id: &str,
    domain: &DomainAsset,
    outcome: Result<Vec<String>, String>,
) -> (r: Result<(), WatcherError>)
    ensures
        outcome matches Ok(ips) && ips@.len() == 0 ==> r is Ok,
        r matches Ok(()) ==> match outcome {
            Ok(ips) => ips@.len() > 0 ==> resolution_recorded(db.spec_path(), batch_id@, *domain, views(ips@)),
            Err(message) => exists|x: Exchange|
                x.on() == db.spec_path() && fits(#[trigger] x.handed(), alert_template(batch_id@, Some(domain.system_id@), "dns_error"@, "low"@,
                    domain.name@, None, None, Some(message@))),
        },
        r matches Err(e) ==> e.is_storage() || (e is Invalid && has_blank_address(outcome)),
{
    match outcome {
        Ok(ips) => {
            if ips.len() > 0 {
                db.update_domain_resolution(batch_id, domain, &ips)?;
            }
            Ok(())
        },
        Err(message) => db.add_alert(
            batch_id,
            Some(domain.system_id.as_str()),
            "dns_error",
            "low",
            domain.name.as_str(),
            None,
            None,
            Some(message.as_str()),
        ),
    }
}

} // verus!
