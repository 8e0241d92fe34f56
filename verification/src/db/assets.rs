//! Domain, IP, URL and port writes and the systems they belong to.

use vstd::prelude::*;

use crate::error::{self, WatcherError};
use crate::text::{self, trim, trim_end_char};

use super::cli_query::set_baseline_id_sql;
use super::sql::{self, Link, SqlValue, Param, Exchange, fits, written, text_slot, opt_slot, opt_str, looked_up, first_text_is};
use super::types::Database;

verus! {

/// A stored domain name: trimmed, without trailing dots.
pub open spec fn domain_key(name: Seq<char>) -> Seq<char> {
    trim_end_char(trim(name), '.')
}

/// The outcome of a write whose only input check is that `value` is not
/// blank: blank values are rejected with `text`, and otherwise only SQLite
/// can fail.
pub open spec fn checked_write<T>(blank: bool, r: Result<T, WatcherError>, text: Seq<char>) -> bool {
    &&& blank ==> (r matches Err(e) && e.is_invalid_with(text))
    &&& !blank ==> (r matches Err(e) ==> e.is_storage())
}

/// The outcome of a write to a named system that checks the system name
/// before touching storage and the value only after the system row: a blank
/// system name is its error, a blank value the only other input error it can
/// give, and otherwise only SQLite can fail.
pub open spec fn system_then_value_write<T>(
    system: Seq<char>,
    value_blank: bool,
    r: Result<T, WatcherError>,
    value_text: Seq<char>,
) -> bool {
    &&& trim(system).len() == 0 ==> (r matches Err(e) && e.is_invalid_with("system name must not be empty"@))
    &&& trim(system).len() != 0 && value_blank ==> (r matches Err(e) && (e.is_invalid_with(value_text)
        || e.is_storage()))
    &&& trim(system).len() != 0 && !value_blank ==> (r matches Err(e) ==> e.is_storage())
}

/// An optional text parameter from an optional string.
fn opt_param(value: Option<&str>) -> (v: SqlValue)
    ensures
        match value {
            Some(t) => sql::text_of(v) == Some(t@),
            None => v is Null,
        },
{
    sql::opt_text(value)
}

/// Looks up one id with a query of at most one row.
fn find_id(conn: &Link, query: &str, params: &[SqlValue]) -> (r: Result<
    Option<String>,
    WatcherError,
>)
    ensures
        r matches Ok(found) ==> looked_up(conn.db(), query@, sql::statement_of(query@, params@).1, opt_view(found)),
        r matches Err(e) ==> e.is_storage(),
{
    let q = sql::ask(conn, query, params)?;
    let found = sql::first_text(q.rows())?;
    assert(looked_up(conn.db(), query@, sql::statement_of(query@, params@).1, opt_view(found)));
    Ok(found)
}

/// The query of the id of a system by name.
pub const SYSTEM_FIND_SQL: &'static str = "SELECT id FROM systems WHERE name = ?1";

/// The statement that adds a system.
pub const SYSTEM_ADD_SQL: &'static str = "INSERT INTO systems (id, name, created_at) VALUES (?1, ?2, ?3)";

/// The query of the id of a domain of a system.
pub const DOMAIN_FIND_SQL: &'static str = "SELECT id FROM domains WHERE system_id = ?1 AND name = ?2";

/// The statement that refreshes a domain (and its bind IP when given).
pub const DOMAIN_TOUCH_SQL: &'static str = "UPDATE domains SET bind_ip = COALESCE(?1, bind_ip), updated_at = ?2 WHERE id = ?3";

/// The statement that adds a domain.
pub const DOMAIN_ADD_SQL: &'static str = "INSERT INTO domains (id, system_id, name, bind_ip, created_at, updated_at)
                     VALUES (?1, ?2, ?3, ?4, ?5, ?5)";

/// The query of the id of an IP address of a system.
pub const IP_FIND_SQL: &'static str = "SELECT id FROM ip_addresses WHERE system_id = ?1 AND ip = ?2";

/// The statement that gives a merely resolved IP address the new source.
pub const IP_TOUCH_SQL: &'static str = "UPDATE ip_addresses SET source = CASE WHEN source = 'resolved' THEN ?1 ELSE source END, updated_at = ?2 WHERE id = ?3";

/// The statement that adds an IP address.
pub const IP_ADD_SQL: &'static str = "INSERT INTO ip_addresses (id, system_id, ip, source, created_at, updated_at)
                     VALUES (?1, ?2, ?3, ?4, ?5, ?5)";

/// The query of the id of a URL of a system.
pub const URL_FIND_SQL: &'static str = "SELECT id FROM urls WHERE system_id = ?1 AND url = ?2";

/// The statement that merges a source, status code and score into a URL.
pub const URL_TOUCH_SQL: &'static str = "UPDATE urls
                     SET source = CASE WHEN source = 'imported' THEN source ELSE ?1 END,
                         status_code = COALESCE(?2, status_code),
                         value_score = MAX(value_score, ?3),
                         updated_at = ?4
                     WHERE id = ?5";

/// The statement that adds a URL.
pub const URL_ADD_SQL: &'static str = "INSERT INTO urls (id, system_id, url, source, status_code, value_score, created_at, updated_at)
                     VALUES (?1, ?2, ?3, ?4, ?5, ?6, ?7, ?7)";

/// The query of the id of a port of a system on an IP (or on none).
pub const PORT_FIND_SQL: &'static str = "SELECT id FROM ports WHERE system_id = ?1 AND ((ip_id IS NULL AND ?2 IS NULL) OR ip_id = ?2) AND port = ?3";

/// The statement that adds a port.
pub const PORT_ADD_SQL: &'static str = "INSERT INTO ports (id, system_id, ip_id, port, source, first_seen, last_seen)
                     VALUES (?1, ?2, ?3, ?4, ?5, ?6, ?6)";

/// The system named `name` (trimmed) was found with id `id`, or added with
/// it.
pub open spec fn system_upserted(db: Seq<char>, name: Seq<char>, id: Seq<char>) -> bool {
    found_or_added(db, 
        SYSTEM_FIND_SQL@,
        seq![Param::Text(trim(name))],
        id,
        None,
        (SYSTEM_ADD_SQL@, seq![text_slot(id), text_slot(trim(name)), None]),
    )
}

/// The domain `name` (trimmed, trailing dots removed) of the system was found
/// with id `id` and refreshed, or added with it.
pub open spec fn domain_upserted(db: Seq<char>, system_id: Seq<char>, name: Seq<char>, bind_ip: Option<Seq<char>>, id: Seq<char>) -> bool {
    found_or_added(db, 
        DOMAIN_FIND_SQL@,
        seq![Param::Text(system_id), Param::Text(domain_key(name))],
        id,
        Some((DOMAIN_TOUCH_SQL@, seq![opt_slot(bind_ip), None, text_slot(id)])),
        (DOMAIN_ADD_SQL@, seq![text_slot(id), text_slot(system_id), text_slot(domain_key(name)), opt_slot(bind_ip), None]),
    )
}

/// The IP address `ip` (trimmed) of the system was found with id `id` and
/// given the source if it was only resolved, or added with it.
pub open spec fn ip_upserted(db: Seq<char>, system_id: Seq<char>, ip: Seq<char>, source: Seq<char>, id: Seq<char>) -> bool {
    found_or_added(db, 
        IP_FIND_SQL@,
        seq![Param::Text(system_id), Param::Text(trim(ip))],
        id,
        Some((IP_TOUCH_SQL@, seq![text_slot(source), None, text_slot(id)])),
        (IP_ADD_SQL@, seq![text_slot(id), text_slot(system_id), text_slot(trim(ip)), text_slot(source), None]),
    )
}

/// The URL `url` (trimmed) of the system was found with id `id` and had the
/// source, status code and score merged in, or was added with them.
pub open spec fn url_upserted(db: Seq<char>, 
    system_id: Seq<char>,
    url: Seq<char>,
    source: Seq<char>,
    status_code: Option<u16>,
    value_score: i64,
    id: Seq<char>,
) -> bool {
    found_or_added(db, 
        URL_FIND_SQL@,
        seq![Param::Text(system_id), Param::Text(trim(url))],
        id,
        Some((URL_TOUCH_SQL@, seq![
            text_slot(source),
            status_slot(status_code),
            Some(Param::Integer(value_score)),
            None,
            text_slot(id),
        ])),
        (URL_ADD_SQL@, seq![
            text_slot(id),
            text_slot(system_id),
            text_slot(trim(url)),
            text_slot(source),
            status_slot(status_code),
            Some(Param::Integer(value_score)),
            None,
        ]),
    )
}

/// The port of the system on the IP with id `ip_id` (or on none) was found
/// with id `id`, or added with it.
pub open spec fn port_upserted(db: Seq<char>, system_id: Seq<char>, ip_id: Option<Seq<char>>, port: u16, source: Seq<char>, id: Seq<char>) -> bool {
    found_or_added(db, 
        PORT_FIND_SQL@,
        seq![Param::Text(system_id), opt_slot(ip_id).unwrap(), Param::Integer(port as i64)],
        id,
        None,
        (PORT_ADD_SQL@, seq![
            text_slot(id),
            text_slot(system_id),
            opt_slot(ip_id),
            Some(Param::Integer(port as i64)),
            text_slot(source),
            None,
        ]),
    )
}

/// The port of the system was recorded on its IP: with a non-blank IP, the
/// IP was upserted first and the port recorded on its id; otherwise on none.
pub open spec fn port_on_ip_upserted(db: Seq<char>, system_id: Seq<char>, ip: Option<Seq<char>>, port: u16, source: Seq<char>, id: Seq<char>) -> bool {
    match ip {
        Some(v) => if trim(v).len() == 0 {
            port_upserted(db, system_id, None, port, source, id)
        } else {
            exists|ip_id: Seq<char>|
                #[trigger] ip_upserted(db, system_id, v, source, ip_id) && port_upserted(db, system_id, Some(ip_id), port, source, id)
        },
        None => port_upserted(db, system_id, None, port, source, id),
    }
}

/// A status code slot: the code, or NULL.
pub open spec fn status_slot(code: Option<u16>) -> Option<Param> {
    match code {
        Some(c) => Some(Param::Integer(c as i64)),
        None => Some(Param::Null),
    }
}

/// The view of an optional text.
pub open spec fn opt_view(v: Option<String>) -> Option<Seq<char>> {
    match v {
        Some(s) => Some(s@),
        None => None,
    }
}

/// A lookup found `id` and the row was refreshed by `touch`, or it found
/// nothing and `id` was added by `add`.
pub open spec fn found_or_added(db: Seq<char>, 
    find: Seq<char>,
    find_params: Seq<Param>,
    id: Seq<char>,
    touch: Option<sql::Template>,
    add: sql::Template,
) -> bool {
    ||| looked_up(db, find, find_params, Some(id)) && match touch {
        Some(t) => written(db, t),
        None => true,
    }
    ||| looked_up(db, find, find_params, None) && written(db, add)
}

impl Database {
    /// Returns the id of the system named `name` (trimmed), creating it when
    /// it does not exist yet.
    pub fn upsert_system(&self, name: &str) -> (r: Result<String, WatcherError>)
        ensures
            checked_write(trim(name@).len() == 0, r, "system name must not be empty"@),
            r matches Ok(id) ==> found_or_added(self.spec_path(), 
                SYSTEM_FIND_SQL@,
                seq![Param::Text(trim(name@))],
                id@,
                None,
                (SYSTEM_ADD_SQL@, seq![text_slot(id@), text_slot(trim(name@)), None]),
            ),
    {
        let ghost given = name@;
        let key = text::trimmed(name);
        if key.len() == 0 {
            return Err(error::invalid("system name must not be empty"));
        }
        let name = text::string_of(&key);
        let conn = self.conn()?;
        let mut params: Vec<SqlValue> = Vec::new();
        params.push(sql::text_param(name.as_str()));
        let existing = find_id(&conn, SYSTEM_FIND_SQL, &params)?;
        assert(sql::statement_of(SYSTEM_FIND_SQL@, params@).1 == seq![Param::Text(trim(given))]);
        match existing {
            Some(id) => Ok(id),
            None => {
                let id = sql::new_id();
                let mut insert: Vec<SqlValue> = Vec::new();
                insert.push(sql::text_param(id.as_str()));
                insert.push(sql::text_param(name.as_str()));
                insert.push(SqlValue::Text(sql::now()));
                let x = sql::perform(&conn, SYSTEM_ADD_SQL, &insert)?;
                assert(fits(x.handed(), (SYSTEM_ADD_SQL@, seq![text_slot(id@), text_slot(trim(given)), None])));
                Ok(id)
            },
        }
    }

    /// Adds or updates the domain `name` of the named system and returns its id.
    pub fn upsert_domain_for_system(&self, system: &str, name: &str, bind_ip: Option<&str>) -> (r:
        Result<String, WatcherError>)
        ensures
            system_then_value_write(system@, domain_key(name@).len() == 0, r, "domain name must not be empty"@),
            r matches Ok(id) ==> exists|sid: Seq<char>|
                #[trigger] system_upserted(self.spec_path(), system@, sid) && domain_upserted(self.spec_path(), sid, name@, opt_str(bind_ip), id@),
    {
        let system_id = self.upsert_system(system)?;
        let id = self.upsert_domain(system_id.as_str(), name, bind_ip)?;
        assert(system_upserted(self.spec_path(), system@, system_id@));
        Ok(id)
    }

    /// Adds or updates the domain `name` of the named system, marks it as
    /// baseline, and returns its id.
    pub fn upsert_baseline_domain_for_system(
        &self,
        system: &str,
        name: &str,
        bind_ip: Option<&str>,
    ) -> (r: Result<String, WatcherError>)
        ensures
            system_then_value_write(system@, domain_key(name@).len() == 0, r, "domain name must not be empty"@),
            r matches Ok(id) ==> (exists|sid: Seq<char>| #[trigger] system_upserted(self.spec_path(), system@, sid) && domain_upserted(self.spec_path(), sid, name@, opt_str(bind_ip), id@))
                && exists|x: Exchange|
                x.on() == self.spec_path() && #[trigger] x.handed() == (set_baseline_id_sql("domains"@), seq![Param::Integer(1), Param::Text(id@)]),
    {
        let id = self.upsert_domain_for_system(system, name, bind_ip)?;
        self.set_domain_baseline_by_id(id.as_str(), true)?;
        Ok(id)
    }

    /// Adds the domain (trimmed, without trailing dots) to a system, or
    /// updates its bind IP when given; returns its id.
    pub fn upsert_domain(&self, system_id: &str, name: &str, bind_ip: Option<&str>) -> (r: Result<
        String,
        WatcherError,
    >)
        ensures
            checked_write(domain_key(name@).len() == 0, r, "domain name must not be empty"@),
            r matches Ok(id) ==> found_or_added(self.spec_path(), 
                DOMAIN_FIND_SQL@,
                seq![Param::Text(system_id@), Param::Text(domain_key(name@))],
                id@,
                Some((DOMAIN_TOUCH_SQL@, seq![opt_slot(opt_str(bind_ip)), None, text_slot(id@)])),
                (DOMAIN_ADD_SQL@, seq![
                    text_slot(id@),
                    text_slot(system_id@),
                    text_slot(domain_key(name@)),
                    opt_slot(opt_str(bind_ip)),
                    None,
                ]),
            ),
    {
        let ghost given = name@;
        let trimmed = text::trimmed(name);
        let key = text::strip_trailing(&trimmed, '.');
        if key.len() == 0 {
            return Err(error::invalid("domain name must not be empty"));
        }
        let name = text::string_of(&key);
        let conn = self.conn()?;
        let mut params: Vec<SqlValue> = Vec::new();
        params.push(sql::text_param(system_id));
        params.push(sql::text_param(name.as_str()));
        let existing = find_id(&conn, DOMAIN_FIND_SQL, &params)?;
        assert(sql::statement_of(DOMAIN_FIND_SQL@, params@).1 == seq![
            Param::Text(system_id@),
            Param::Text(domain_key(given)),
        ]);
        match existing {
            Some(id) => {
                let mut update: Vec<SqlValue> = Vec::new();
                update.push(opt_param(bind_ip));
                update.push(SqlValue::Text(sql::now()));
                update.push(sql::text_param(id.as_str()));
                let x = sql::perform(&conn, DOMAIN_TOUCH_SQL, &update)?;
                assert(fits(x.handed(), (DOMAIN_TOUCH_SQL@, seq![opt_slot(opt_str(bind_ip)), None, text_slot(id@)])));
                Ok(id)
            },
            None => {
                let id = sql::new_id();
                let mut insert: Vec<SqlValue> = Vec::new();
                insert.push(sql::text_param(id.as_str()));
                insert.push(sql::text_param(system_id));
                insert.push(sql::text_param(name.as_str()));
                insert.push(opt_param(bind_ip));
                insert.push(SqlValue::Text(sql::now()));
                let x = sql::perform(&conn, DOMAIN_ADD_SQL, &insert)?;
                assert(fits(x.handed(), (DOMAIN_ADD_SQL@, seq![
                    text_slot(id@),
                    text_slot(system_id@),
                    text_slot(domain_key(given)),
                    opt_slot(opt_str(bind_ip)),
                    None,
                ])));
                Ok(id)
            },
        }
    }

    /// Adds or updates the IP address of the named system and returns its id.
    pub fn upsert_ip_for_system(&self, system: &str, ip: &str, source: &str) -> (r: Result<
        String,
        WatcherError,
    >)
        ensures
            system_then_value_write(system@, trim(ip@).len() == 0, r, "ip must not be empty"@),
            r matches Ok(id) ==> exists|sid: Seq<char>|
                #[trigger] system_upserted(self.spec_path(), system@, sid) && ip_upserted(self.spec_path(), sid, ip@, source@, id@),
    {
        let system_id = self.upsert_system(system)?;
        let id = self.upsert_ip(system_id.as_str(), ip, source)?;
        assert(system_upserted(self.spec_path(), system@, system_id@));
        Ok(id)
    }

    /// Adds or updates the IP address of the named system, marks it as
    /// baseline, and returns its id.
    pub fn upsert_baseline_ip_for_system(&self, system: &str, ip: &str, source: &str) -> (r:
        Result<String, WatcherError>)
        ensures
            system_then_value_write(system@, trim(ip@).len() == 0, r, "ip must not be empty"@),
            r matches Ok(id) ==> (exists|sid: Seq<char>| #[trigger] system_upserted(self.spec_path(), system@, sid) && ip_upserted(self.spec_path(), sid, ip@, source@, id@))
                && exists|x: Exchange|
                x.on() == self.spec_path() && #[trigger] x.handed() == (set_baseline_id_sql("ip_addresses"@), seq![Param::Integer(1), Param::Text(id@)]),
    {
        let id = self.upsert_ip_for_system(system, ip, source)?;
        self.set_ip_baseline_by_id(id.as_str(), true)?;
        Ok(id)
    }

    /// Adds the IP address (trimmed) to a system; an existing address that
    /// was only resolved takes the new source. Returns its id.
    pub fn upsert_ip(&self, system_id: &str, ip: &str, source: &str) -> (r: Result<
        String,
        WatcherError,
    >)
        ensures
            checked_write(trim(ip@).len() == 0, r, "ip must not be empty"@),
            r matches Ok(id) ==> found_or_added(self.spec_path(), 
                IP_FIND_SQL@,
                seq![Param::Text(system_id@), Param::Text(trim(ip@))],
                id@,
                Some((IP_TOUCH_SQL@, seq![text_slot(source@), None, text_slot(id@)])),
                (IP_ADD_SQL@, seq![text_slot(id@), text_slot(system_id@), text_slot(trim(ip@)), text_slot(source@), None]),
            ),
    {
        let key = text::trimmed(ip);
        let ip = text::string_of(&key);
        if key.len() == 0 {
            return Err(error::invalid("ip must not be empty"));
        }
        let conn = self.conn()?;
        let mut params: Vec<SqlValue> = Vec::new();
        params.push(sql::text_param(system_id));
        params.push(sql::text_param(ip.as_str()));
        let existing = find_id(&conn, IP_FIND_SQL, &params)?;
        assert(sql::statement_of(IP_FIND_SQL@, params@).1 == seq![Param::Text(system_id@), Param::Text(ip@)]);
        match existing {
            Some(id) => {
                let mut update: Vec<SqlValue> = Vec::new();
                update.push(sql::text_param(source));
                update.push(SqlValue::Text(sql::now()));
                update.push(sql::text_param(id.as_str()));
                let x = sql::perform(&conn, IP_TOUCH_SQL, &update)?;
                assert(fits(x.handed(), (IP_TOUCH_SQL@, seq![text_slot(source@), None, text_slot(id@)])));
                Ok(id)
            },
            None => {
                let id = sql::new_id();
                let mut insert: Vec<SqlValue> = Vec::new();
                insert.push(sql::text_param(id.as_str()));
                insert.push(sql::text_param(system_id));
                insert.push(sql::text_param(ip.as_str()));
                insert.push(sql::text_param(source));
                insert.push(SqlValue::Text(sql::now()));
                let x = sql::perform(&conn, IP_ADD_SQL, &insert)?;
                assert(fits(x.handed(), (IP_ADD_SQL@, seq![
                    text_slot(id@),
                    text_slot(system_id@),
                    text_slot(ip@),
                    text_slot(source@),
                    None,
                ])));
                Ok(id)
            },
        }
    }

    /// Adds or updates the URL of the named system and returns its id.
    pub fn upsert_url_for_system(&self, system: &str, url: &str, source: &str) -> (r: Result<
        String,
        WatcherError,
    >)
        ensures
            system_then_value_write(system@, trim(url@).len() == 0, r, "url must not be empty"@),
            r matches Ok(id) ==> exists|sid: Seq<char>|
                #[trigger] system_upserted(self.spec_path(), system@, sid) && url_upserted(self.spec_path(), sid, url@, source@, None, 0, id@),
    {
        let system_id = self.upsert_system(system)?;
        let id = self.upsert_url(system_id.as_str(), url, source, None, 0)?;
        assert(system_upserted(self.spec_path(), system@, system_id@));
        Ok(id)
    }

    /// Adds or updates the URL of the named system, marks it as baseline,
    /// and returns its id.
    pub fn upsert_baseline_url_for_system(&self, system: &str, url: &str, source: &str) -> (r:
        Result<String, WatcherError>)
        ensures
            system_then_value_write(system@, trim(url@).len() == 0, r, "url must not be empty"@),
            r matches Ok(id) ==> (exists|sid: Seq<char>| #[trigger] system_upserted(self.spec_path(), system@, sid) && url_upserted(self.spec_path(), sid, url@, source@, None, 0, id@))
                && exists|x: Exchange|
                x.on() == self.spec_path() && #[trigger] x.handed() == (set_baseline_id_sql("urls"@), seq![Param::Integer(1), Param::Text(id@)]),
    {
        let id = self.upsert_url_for_system(system, url, source)?;
        self.set_url_baseline_by_id(id.as_str(), true)?;
        Ok(id)
    }

    /// Adds the URL (trimmed) to a system, or merges status code, score and
    /// source into the stored one; returns its id.
    pub fn upsert_url(
        &self,
        system_id: &str,
        url: &str,
        source: &str,
        status_code: Option<u16>,
        value_score: i64,
    ) -> (r: Result<String, WatcherError>)
        ensures
            checked_write(trim(url@).len() == 0, r, "url must not be empty"@),
            r matches Ok(id) ==> found_or_added(self.spec_path(), 
                URL_FIND_SQL@,
                seq![Param::Text(system_id@), Param::Text(trim(url@))],
                id@,
                Some((URL_TOUCH_SQL@, seq![
                    text_slot(source@),
                    status_slot(status_code),
                    Some(Param::Integer(value_score)),
                    None,
                    text_slot(id@),
                ])),
                (URL_ADD_SQL@, seq![
                    text_slot(id@),
                    text_slot(system_id@),
                    text_slot(trim(url@)),
                    text_slot(source@),
                    status_slot(status_code),
                    Some(Param::Integer(value_score)),
                    None,
                ]),
            ),
    {
        let ghost given = url@;
        let key = text::trimmed(url);
        let url = text::string_of(&key);
        if key.len() == 0 {
            return Err(error::invalid("url must not be empty"));
        }
        let status = match status_code {
            Some(code) => SqlValue::Integer(code as i64),
            None => SqlValue::Null,
        };
        let conn = self.conn()?;
        let mut params: Vec<SqlValue> = Vec::new();
        params.push(sql::text_param(system_id));
        params.push(sql::text_param(url.as_str()));
        let existing = find_id(&conn, URL_FIND_SQL, &params)?;
        assert(sql::statement_of(URL_FIND_SQL@, params@).1 == seq![Param::Text(system_id@), Param::Text(trim(given))]);
        match existing {
            Some(id) => {
                let mut update: Vec<SqlValue> = Vec::new();
                update.push(sql::text_param(source));
                update.push(status);
                update.push(SqlValue::Integer(value_score));
                update.push(SqlValue::Text(sql::now()));
                update.push(sql::text_param(id.as_str()));
                let x = sql::perform(&conn, URL_TOUCH_SQL, &update)?;
                assert(fits(x.handed(), (URL_TOUCH_SQL@, seq![
                    text_slot(source@),
                    status_slot(status_code),
                    Some(Param::Integer(value_score)),
                    None,
                    text_slot(id@),
                ])));
                Ok(id)
            },
            None => {
                let id = sql::new_id();
                let mut insert: Vec<SqlValue> = Vec::new();
                insert.push(sql::text_param(id.as_str()));
                insert.push(sql::text_param(system_id));
                insert.push(sql::text_param(url.as_str()));
                insert.push(sql::text_param(source));
                insert.push(status);
                insert.push(SqlValue::Integer(value_score));
                insert.push(SqlValue::Text(sql::now()));
                let x = sql::perform(&conn, URL_ADD_SQL, &insert)?;
                assert(fits(x.handed(), (URL_ADD_SQL@, seq![
                    text_slot(id@),
                    text_slot(system_id@),
                    text_slot(trim(given)),
                    text_slot(source@),
                    status_slot(status_code),
                    Some(Param::Integer(value_score)),
                    None,
                ])));
                Ok(id)
            },
        }
    }

    /// Adds the port of the named system (on `ip`, when one is given and not
    /// blank) and returns its id.
    pub fn upsert_port_for_system(&self, system: &str, ip: Option<&str>, port: u16, source: &str) -> (r:
        Result<String, WatcherError>)
        ensures
            checked_write(trim(system@).len() == 0, r, "system name must not be empty"@),
            r matches Ok(id) ==> exists|sid: Seq<char>|
                #[trigger] system_upserted(self.spec_path(), system@, sid) && port_on_ip_upserted(self.spec_path(), sid, opt_str(ip), port, source@, id@),
    {
        let system_id = self.upsert_system(system)?;
        assert(system_upserted(self.spec_path(), system@, system_id@));
        let id = match ip {
            Some(value) => {
                if text::is_blank(value) {
                    self.upsert_port(system_id.as_str(), None, port, source)?
                } else {
                    let ip_id = self.upsert_ip(system_id.as_str(), value, source)?;
                    let id = self.upsert_port(system_id.as_str(), Some(ip_id.as_str()), port, source)?;
                    assert(ip_upserted(self.spec_path(), system_id@, value@, source@, ip_id@));
                    id
                }
            },
            None => self.upsert_port(system_id.as_str(), None, port, source)?,
        };
        Ok(id)
    }

    /// Adds the port of the named system, marks it as baseline, and returns
    /// its id.
    pub fn upsert_baseline_port_for_system(
        &self,
        system: &str,
        ip: Option<&str>,
        port: u16,
        source: &str,
    ) -> (r: Result<String, WatcherError>)
        ensures
            checked_write(trim(system@).len() == 0, r, "system name must not be empty"@),
            r matches Ok(id) ==> (exists|sid: Seq<char>|
                #[trigger] system_upserted(self.spec_path(), system@, sid) && port_on_ip_upserted(self.spec_path(), sid, opt_str(ip), port, source@, id@))
                && exists|x: Exchange|
                x.on() == self.spec_path() && #[trigger] x.handed() == (set_baseline_id_sql("ports"@), seq![Param::Integer(1), Param::Text(id@)]),
    {
        let id = self.upsert_port_for_system(system, ip, port, source)?;
        self.set_port_baseline_by_id(id.as_str(), true)?;
        Ok(id)
    }

    /// Returns the id of the port of a system (on the given IP, or on none),
    /// adding it when absent.
    pub fn upsert_port(&self, system_id: &str, ip_id: Option<&str>, port: u16, source: &str) -> (r:
        Result<String, WatcherError>)
        ensures
            r matches Ok(id) ==> found_or_added(self.spec_path(), 
                PORT_FIND_SQL@,
                seq![Param::Text(system_id@), opt_slot(opt_str(ip_id)).unwrap(), Param::Integer(port as i64)],
                id@,
                None,
                (PORT_ADD_SQL@, seq![
                    text_slot(id@),
                    text_slot(system_id@),
                    opt_slot(opt_str(ip_id)),
                    Some(Param::Integer(port as i64)),
                    text_slot(source@),
                    None,
                ]),
            ),
            r matches Err(e) ==> e.is_storage(),
    {
        let conn = self.conn()?;
        let mut params: Vec<SqlValue> = Vec::new();
        params.push(sql::text_param(system_id));
        params.push(opt_param(ip_id));
        params.push(SqlValue::Integer(port as i64));
        let existing = find_id(&conn, PORT_FIND_SQL, &params)?;
        assert(sql::statement_of(PORT_FIND_SQL@, params@).1 == seq![
            Param::Text(system_id@),
            opt_slot(opt_str(ip_id)).unwrap(),
            Param::Integer(port as i64),
        ]);
        match existing {
            Some(id) => Ok(id),
            None => {
                let id = sql::new_id();
                let mut insert: Vec<SqlValue> = Vec::new();
                insert.push(sql::text_param(id.as_str()));
                insert.push(sql::text_param(system_id));
                insert.push(opt_param(ip_id));
                insert.push(SqlValue::Integer(port as i64));
                insert.push(sql::text_param(source));
                insert.push(SqlValue::Text(sql::now()));
                let x = sql::perform(&conn, PORT_ADD_SQL, &insert)?;
                assert(fits(x.handed(), (PORT_ADD_SQL@, seq![
                    text_slot(id@),
                    text_slot(system_id@),
                    opt_slot(opt_str(ip_id)),
                    Some(Param::Integer(port as i64)),
                    text_slot(source@),
                    None,
                ])));
                Ok(id)
            },
        }
    }
}

} // verus!
