//! Asset deletion from the command line.

use vstd::prelude::*;

use crate::error::WatcherError;

use super::sql::{self, SqlValue, Exchange, Param, fits, text_slot, opt_slot, opt_str};
use super::cli_query::{delete_value_sql, delete_system_value_sql};
use super::types::Database;

verus! {

/// The statement that deletes a port of a named system (on one IP when
/// the third parameter is not NULL).
pub const DELETE_SYSTEM_PORT_SQL: &'static str = "DELETE FROM ports
             WHERE system_id = (SELECT id FROM systems WHERE name = ?1)
               AND port = ?2
               AND (?3 IS NULL OR ip_id IN (
                   SELECT id FROM ip_addresses
                   WHERE system_id = ports.system_id AND ip = ?3
               ))";

impl Database {
    /// Deletes every URL equal to `value`, in every system.
    pub fn delete_url(&self, value: &str) -> (r: Result<(), WatcherError>)
        ensures
            r matches Ok(()) ==> exists|x: Exchange|
                x.on() == self.spec_path() && #[trigger] x.handed() == (delete_value_sql("urls"@, "url"@), seq![Param::Text(value@)]),
            r matches Err(e) ==> e is Database,
    {
        self.delete_by_value("urls", "url", value)
    }

    /// Deletes the URL `value` of the named system; returns how many rows went.
    pub fn delete_url_for_system(&self, system: &str, value: &str) -> (r: Result<usize, WatcherError>)
        ensures
            r matches Ok(n) ==> exists|x: Exchange|
                x.on() == self.spec_path() && #[trigger] x.handed() == (delete_system_value_sql("urls"@, "url"@), seq![
                    Param::Text(system@),
                    Param::Text(value@),
                ]) && x.count() == n,
            r matches Err(e) ==> e is Database,
    {
        self.delete_by_system_value("urls", "url", system, value)
    }

    /// Deletes every port with the number `value`, in every system.
    pub fn delete_port(&self, value: u16) -> (r: Result<(), WatcherError>)
        ensures
            r matches Ok(()) ==> exists|x: Exchange|
                x.on() == self.spec_path() && #[trigger] x.handed() == ("DELETE FROM ports WHERE port = ?1"@, seq![Param::Integer(value as i64)]),
            r matches Err(e) ==> e is Database,
    {
        let conn = self.conn()?;
        let mut params: Vec<SqlValue> = Vec::new();
        params.push(SqlValue::Integer(value as i64));
        let x = sql::perform(&conn, "DELETE FROM ports WHERE port = ?1", &params)?;
        assert(x.handed() == ("DELETE FROM ports WHERE port = ?1"@, seq![Param::Integer(value as i64)]));
        Ok(())
    }

    /// Deletes the port of the named system (only on `ip`, when one is given);
    /// returns how many rows went.
    pub fn delete_port_for_system(&self, system: &str, ip: Option<&str>, port: u16) -> (r: Result<
        usize,
        WatcherError,
    >)
        ensures
            r matches Ok(n) ==> exists|x: Exchange|
                x.on() == self.spec_path() && fits(#[trigger] x.handed(), (DELETE_SYSTEM_PORT_SQL@, seq![
                    text_slot(system@),
                    Some(Param::Integer(port as i64)),
                    opt_slot(opt_str(ip)),
                ])) && x.count() == n,
            r matches Err(e) ==> e is Database,
    {
        let conn = self.conn()?;
        let mut params: Vec<SqlValue> = Vec::new();
        params.push(sql::text_param(system));
        params.push(SqlValue::Integer(port as i64));
        params.push(sql::opt_text(ip));
        let x = sql::perform(&conn, DELETE_SYSTEM_PORT_SQL, &params)?;
        assert(fits(x.handed(), (DELETE_SYSTEM_PORT_SQL@, seq![
            text_slot(system@),
            Some(Param::Integer(port as i64)),
            opt_slot(opt_str(ip)),
        ])));
        Ok(x.changed())
    }

    /// Deletes every IP address equal to `value`, in every system.
    pub fn delete_ip(&self, value: &str) -> (r: Result<(), WatcherError>)
        ensures
            r matches Ok(()) ==> exists|x: Exchange|
                x.on() == self.spec_path() && #[trigger] x.handed() == (delete_value_sql("ip_addresses"@, "ip"@), seq![Param::Text(value@)]),
            r matches Err(e) ==> e is Database,
    {
        self.delete_by_value("ip_addresses", "ip", value)
    }

    /// Deletes the IP address `value` of the named system; returns how many
    /// rows went.
    pub fn delete_ip_for_system(&self, system: &str, value: &str) -> (r: Result<usize, WatcherError>)
        ensures
            r matches Ok(n) ==> exists|x: Exchange|
                x.on() == self.spec_path() && #[trigger] x.handed() == (delete_system_value_sql("ip_addresses"@, "ip"@), seq![
                    Param::Text(system@),
                    Param::Text(value@),
                ]) && x.count() == n,
            r matches Err(e) ==> e is Database,
    {
        self.delete_by_system_value("ip_addresses", "ip", system, value)
    }

    /// Deletes every domain name equal to `value`, in every system.
    pub fn delete_name(&self, value: &str) -> (r: Result<(), WatcherError>)
        ensures
            r matches Ok(()) ==> exists|x: Exchange|
                x.on() == self.spec_path() && #[trigger] x.handed() == (delete_value_sql("domains"@, "name"@), seq![Param::Text(value@)]),
            r matches Err(e) ==> e is Database,
    {
        self.delete_by_value("domains", "name", value)
    }

    /// Deletes the domain name `value` of the named system; returns how many
    /// rows went.
    pub fn delete_name_for_system(&self, system: &str, value: &str) -> (r: Result<usize, WatcherError>)
        ensures
            r matches Ok(n) ==> exists|x: Exchange|
                x.on() == self.spec_path() && #[trigger] x.handed() == (delete_system_value_sql("domains"@, "name"@), seq![
                    Param::Text(system@),
                    Param::Text(value@),
                ]) && x.count() == n,
            r matches Err(e) ==> e is Database,
    {
        self.delete_by_system_value("domains", "name", system, value)
    }
}

} // verus!
