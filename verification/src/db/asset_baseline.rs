//! Baseline marking of individual assets.

use vstd::prelude::*;

use crate::error::WatcherError;

use super::sql::{self, SqlValue, Exchange, Param, fits, text_slot, opt_slot, opt_str};
use super::cli_query::{set_baseline_id_sql, set_baseline_system_value_sql, flag};
use super::types::Database;

verus! {

/// The statement that sets the baseline flag of a port of a named system
/// (on one IP when the fourth parameter is not NULL).
pub const MARK_SYSTEM_PORT_SQL: &'static str = "UPDATE ports
             SET is_baseline = ?1
             WHERE system_id = (SELECT id FROM systems WHERE name = ?2)
               AND port = ?3
               AND (?4 IS NULL OR ip_id IN (
                   SELECT id FROM ip_addresses
                   WHERE system_id = ports.system_id AND ip = ?4
               ))";

impl Database {
    /// Sets or clears the baseline flag of the domain with `id`.
    pub fn set_domain_baseline_by_id(&self, id: &str, is_baseline: bool) -> (r: Result<(), WatcherError>)
        ensures
            r matches Ok(()) ==> exists|x: Exchange|
                x.on() == self.spec_path() && #[trigger] x.handed() == (set_baseline_id_sql("domains"@), seq![
                    Param::Integer(flag(is_baseline)),
                    Param::Text(id@),
                ]),
            r matches Err(e) ==> e is Database,
    {
        self.set_baseline_by_id("domains", id, is_baseline)
    }

    /// Sets or clears the baseline flag of the IP address with `id`.
    pub fn set_ip_baseline_by_id(&self, id: &str, is_baseline: bool) -> (r: Result<(), WatcherError>)
        ensures
            r matches Ok(()) ==> exists|x: Exchange|
                x.on() == self.spec_path() && #[trigger] x.handed() == (set_baseline_id_sql("ip_addresses"@), seq![
                    Param::Integer(flag(is_baseline)),
                    Param::Text(id@),
                ]),
            r matches Err(e) ==> e is Database,
    {
        self.set_baseline_by_id("ip_addresses", id, is_baseline)
    }

    /// Sets or clears the baseline flag of the port with `id`.
    pub fn set_port_baseline_by_id(&self, id: &str, is_baseline: bool) -> (r: Result<(), WatcherError>)
        ensures
            r matches Ok(()) ==> exists|x: Exchange|
                x.on() == self.spec_path() && #[trigger] x.handed() == (set_baseline_id_sql("ports"@), seq![
                    Param::Integer(flag(is_baseline)),
                    Param::Text(id@),
                ]),
            r matches Err(e) ==> e is Database,
    {
        self.set_baseline_by_id("ports", id, is_baseline)
    }

    /// Sets or clears the baseline flag of the URL with `id`.
    pub fn set_url_baseline_by_id(&self, id: &str, is_baseline: bool) -> (r: Result<(), WatcherError>)
        ensures
            r matches Ok(()) ==> exists|x: Exchange|
                x.on() == self.spec_path() && #[trigger] x.handed() == (set_baseline_id_sql("urls"@), seq![
                    Param::Integer(flag(is_baseline)),
                    Param::Text(id@),
                ]),
            r matches Err(e) ==> e is Database,
    {
        self.set_baseline_by_id("urls", id, is_baseline)
    }

    /// Sets or clears the baseline flag of a URL of the named system and
    /// returns how many rows changed.
    pub fn set_url_baseline_for_system(&self, system: &str, value: &str, is_baseline: bool) -> (r:
        Result<usize, WatcherError>)
        ensures
            r matches Ok(n) ==> exists|x: Exchange|
                x.on() == self.spec_path() && #[trigger] x.handed() == (set_baseline_system_value_sql("urls"@, "url"@), seq![
                    Param::Integer(flag(is_baseline)),
                    Param::Text(system@),
                    Param::Text(value@),
                ]) && x.count() == n,
            r matches Err(e) ==> e is Database,
    {
        self.set_baseline_by_system_value("urls", "url", system, value, is_baseline)
    }

    /// Sets or clears the baseline flag of a port of the named system (only
    /// on `ip`, when one is given) and returns how many rows changed.
    pub fn set_port_baseline_for_system(
        &self,
        system: &str,
        ip: Option<&str>,
        port: u16,
        is_baseline: bool,
    ) -> (r: Result<usize, WatcherError>)
        ensures
            r matches Ok(n) ==> exists|x: Exchange|
                x.on() == self.spec_path() && fits(#[trigger] x.handed(), (MARK_SYSTEM_PORT_SQL@, seq![
                    Some(Param::Integer(flag(is_baseline))),
                    text_slot(system@),
                    Some(Param::Integer(port as i64)),
                    opt_slot(opt_str(ip)),
                ])) && x.count() == n,
            r matches Err(e) ==> e is Database,
    {
        let conn = self.conn()?;
        let mut params: Vec<SqlValue> = Vec::new();
        params.push(SqlValue::Integer(if is_baseline { 1 } else { 0 }));
        params.push(sql::text_param(system));
        params.push(SqlValue::Integer(port as i64));
        params.push(sql::opt_text(ip));
        let x = sql::perform(&conn, MARK_SYSTEM_PORT_SQL, &params)?;
        assert(fits(x.handed(), (MARK_SYSTEM_PORT_SQL@, seq![
            Some(Param::Integer(flag(is_baseline))),
            text_slot(system@),
            Some(Param::Integer(port as i64)),
            opt_slot(opt_str(ip)),
        ])));
        Ok(x.changed())
    }

    /// Sets or clears the baseline flag of an IP address of the named system
    /// and returns how many rows changed.
    pub fn set_ip_baseline_for_system(&self, system: &str, value: &str, is_baseline: bool) -> (r:
        Result<usize, WatcherError>)
        ensures
            r matches Ok(n) ==> exists|x: Exchange|
                x.on() == self.spec_path() && #[trigger] x.handed() == (set_baseline_system_value_sql("ip_addresses"@, "ip"@), seq![
                    Param::Integer(flag(is_baseline)),
                    Param::Text(system@),
                    Param::Text(value@),
                ]) && x.count() == n,
            r matches Err(e) ==> e is Database,
    {
        self.set_baseline_by_system_value("ip_addresses", "ip", system, value, is_baseline)
    }

    /// Sets or clears the baseline flag of a domain name of the named system
    /// and returns how many rows changed.
    pub fn set_name_baseline_for_system(&self, system: &str, value: &str, is_baseline: bool) -> (r:
        Result<usize, WatcherError>)
        ensures
            r matches Ok(n) ==> exists|x: Exchange|
                x.on() == self.spec_path() && #[trigger] x.handed() == (set_baseline_system_value_sql("domains"@, "name"@), seq![
                    Param::Integer(flag(is_baseline)),
                    Param::Text(system@),
                    Param::Text(value@),
                ]) && x.count() == n,
            r matches Err(e) ==> e is Database,
    {
        self.set_baseline_by_system_value("domains", "name", system, value, is_baseline)
    }
}

} // verus!
