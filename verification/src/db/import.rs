//! Bulk imports of baseline and discovered assets.

use vstd::prelude::*;

use crate::error::{self, WatcherError};
use crate::text::{self, trim, trim_end_char};

use super::helpers::{self, spec_trimmed_opt};
use super::sql::{self, Tx, opt_view, SqlValue, Exchange, Param};
use super::sql::{fits, opt_slot, text_slot, written, first_text_is, opt_str, committed, committed_among, only_among, Template};
use super::types::{BaselineImportRow, BaselineImportSummary, Database};

verus! {

/// The stored form of an imported value: trimmed, and without trailing dots
/// for domain names.
pub open spec fn import_key(value: Seq<char>, domain: bool) -> Seq<char> {
    if domain {
        trim_end_char(trim(value), '.')
    } else {
        trim(value)
    }
}

/// How many values are not blank.
pub open spec fn count_nonblank(values: Seq<String>) -> nat
    decreases values.len(),
{
    if values.len() == 0 {
        0
    } else {
        count_nonblank(values.drop_last()) + if trim(values.last()@).len() > 0 {
            1nat
        } else {
            0nat
        }
    }
}

/// Some value is not blank yet has no stored form (a domain made of dots).
pub open spec fn has_degenerate_value(values: Seq<String>, domain: bool) -> bool {
    exists|i: int|
        0 <= i < values.len() && trim((#[trigger] values[i])@).len() > 0 && import_key(
            values[i]@,
            domain,
        ).len() == 0
}

/// The counts that one spreadsheet row adds to a baseline import summary:
/// `(systems, names, ips, ports, urls)`.
pub open spec fn row_counts(row: BaselineImportRow) -> (nat, nat, nat, nat, nat) {
    if trim(row.system@).len() == 0 {
        (0, 0, 0, 0, 0)
    } else {
        let name = spec_trimmed_opt(opt_view(row.name));
        if name is Some && trim_end_char(name.unwrap(), '.').len() == 0 {
            (1, 0, 0, 0, 0)
        } else {
            (
                1,
                if name is Some { 1nat } else { 0nat },
                if spec_trimmed_opt(opt_view(row.ip)) is Some { 1nat } else { 0nat },
                row.ports@.len(),
                if spec_trimmed_opt(opt_view(row.url)) is Some { 1nat } else { 0nat },
            )
        }
    }
}

/// The summary a baseline import of `rows` reports.
pub open spec fn import_summary(rows: Seq<BaselineImportRow>) -> (nat, nat, nat, nat, nat)
    decreases rows.len(),
{
    if rows.len() == 0 {
        (0, 0, 0, 0, 0)
    } else {
        let p = import_summary(rows.drop_last());
        let c = row_counts(rows.last());
        ((p.0 + c.0) as nat, (p.1 + c.1) as nat, (p.2 + c.2) as nat, (p.3 + c.3) as nat, (p.4
            + c.4) as nat)
    }
}

/// The port count of a prefix of the rows is at most that of all rows.
pub proof fn lemma_summary_ports_prefix(rows: Seq<BaselineImportRow>, k: int)
    requires
        0 <= k <= rows.len(),
    ensures
        import_summary(rows.take(k)).3 <= import_summary(rows).3,
    decreases rows.len() - k,
{
    if k < rows.len() {
        lemma_summary_ports_prefix(rows, k + 1);
        assert(rows.take(k + 1).drop_last() =~= rows.take(k));
    } else {
        assert(rows.take(k) =~= rows);
    }
}

/// How many port entries the rows hold in all.
pub open spec fn port_entries(rows: Seq<BaselineImportRow>) -> nat
    decreases rows.len(),
{
    if rows.len() == 0 {
        0
    } else {
        port_entries(rows.drop_last()) + rows.last().ports@.len()
    }
}

/// An import writes at most the port entries the rows hold.
pub proof fn lemma_summary_ports_bound(rows: Seq<BaselineImportRow>)
    ensures
        import_summary(rows).3 <= port_entries(rows),
    decreases rows.len(),
{
    if rows.len() > 0 {
        lemma_summary_ports_bound(rows.drop_last());
    }
}

/// Counts the port entries of the rows; `None` when they are more than a
/// `usize` holds.
pub fn count_port_entries(rows: &[BaselineImportRow]) -> (r: Option<usize>)
    ensures
        match r {
            Some(n) => n == port_entries(rows@),
            None => port_entries(rows@) > usize::MAX,
        },
{
    let mut total: usize = 0;
    let mut i: usize = 0;
    assert(rows@.take(0) =~= Seq::<BaselineImportRow>::empty());
    while i < rows.len()
        invariant
            i <= rows@.len(),
            total == port_entries(rows@.take(i as int)),
        decreases rows.len() - i,
    {
        assert(rows@.take(i + 1).drop_last() =~= rows@.take(i as int));
        match total.checked_add(rows[i].ports.len()) {
            Some(t) => {
                total = t;
            },
            None => {
                proof {
                    lemma_port_entries_prefix(rows@, i + 1);
                }
                return None;
            },
        }
        i = i + 1;
    }
    assert(rows@.take(rows@.len() as int) =~= rows@);
    Some(total)
}

/// The port entries of a prefix are at most those of all rows.
proof fn lemma_port_entries_prefix(rows: Seq<BaselineImportRow>, k: int)
    requires
        0 <= k <= rows.len(),
    ensures
        port_entries(rows.take(k)) <= port_entries(rows),
    decreases rows.len() - k,
{
    if k < rows.len() {
        lemma_port_entries_prefix(rows, k + 1);
        assert(rows.take(k + 1).drop_last() =~= rows.take(k));
    } else {
        assert(rows.take(k) =~= rows);
    }
}

/// A summary equals the given counts.
pub open spec fn summary_is(s: BaselineImportSummary, c: (nat, nat, nat, nat, nat)) -> bool {
    s.systems == c.0 && s.names == c.1 && s.ips == c.2 && s.ports == c.3 && s.urls == c.4
}

/// The statement that adds a system unless its name is taken.
pub const SYSTEM_INSERT_SQL: &'static str = "INSERT OR IGNORE INTO systems (id, name, created_at) VALUES (?1, ?2, ?3)";

/// The query of the id of the system with a name.
pub const SYSTEM_ID_SQL: &'static str = "SELECT id FROM systems WHERE name = ?1";

/// The statement that adds or marks as baseline a domain of a system.
pub const DOMAIN_UPSERT_SQL: &'static str = "INSERT INTO domains (id, system_id, name, bind_ip, is_baseline, created_at, updated_at)
                             VALUES (?1, ?2, ?3, ?4, 1, ?5, ?5)
                             ON CONFLICT(system_id, name) DO UPDATE SET
                                bind_ip = COALESCE(excluded.bind_ip, domains.bind_ip),
                                is_baseline = 1,
                                updated_at = excluded.updated_at";

/// The statement that adds or marks as baseline an IP address of a system.
pub const IP_UPSERT_SQL: &'static str = "INSERT INTO ip_addresses (id, system_id, ip, source, is_baseline, created_at, updated_at)
                         VALUES (?1, ?2, ?3, ?4, 1, ?5, ?5)
                         ON CONFLICT(system_id, ip) DO UPDATE SET
                            source = CASE WHEN ip_addresses.source = 'resolved' THEN excluded.source ELSE ip_addresses.source END,
                            is_baseline = 1,
                            updated_at = excluded.updated_at";

/// The query of the id of an IP address of a system.
pub const IP_ID_SQL: &'static str = "SELECT id FROM ip_addresses WHERE system_id = ?1 AND ip = ?2";

/// The statement that adds or marks as baseline a URL of a system.
pub const URL_UPSERT_SQL: &'static str = "INSERT INTO urls (id, system_id, url, source, value_score, is_baseline, created_at, updated_at)
                         VALUES (?1, ?2, ?3, ?4, 10, 1, ?5, ?5)
                         ON CONFLICT(system_id, url) DO UPDATE SET
                            source = CASE WHEN urls.source = 'imported' THEN urls.source ELSE excluded.source END,
                            value_score = MAX(urls.value_score, excluded.value_score),
                            is_baseline = 1,
                            updated_at = excluded.updated_at";

/// The query of the row of a port of a system on an IP (or on none).
pub const PORT_LOOKUP_SQL: &'static str = "SELECT id FROM ports
             WHERE system_id = ?1
               AND ((ip_id IS NULL AND ?2 IS NULL) OR ip_id = ?2)
               AND port = ?3";

/// The statement that marks a port row as baseline and refreshes it.
pub const PORT_MARK_SQL: &'static str = "UPDATE ports SET is_baseline = 1, last_seen = ?1 WHERE id = ?2";

/// The statement that refreshes a port row.
pub const PORT_TOUCH_SQL: &'static str = "UPDATE ports SET last_seen = ?1 WHERE id = ?2";

/// The statement that adds a baseline port row.
pub const PORT_INSERT_BASELINE_SQL: &'static str = "INSERT INTO ports (id, system_id, ip_id, port, source, is_baseline, first_seen, last_seen)
                     VALUES (?1, ?2, ?3, ?4, ?5, 1, ?6, ?6)";

/// The statement that adds a port row that is not baseline.
pub const PORT_INSERT_SQL: &'static str = "INSERT INTO ports (id, system_id, ip_id, port, source, is_baseline, first_seen, last_seen)
                     VALUES (?1, ?2, ?3, ?4, ?5, 0, ?6, ?6)";

/// The system `name` was added unless present, and SQLite answered `id`
/// when asked for its id.
pub open spec fn system_id_read(db: Seq<char>, name: Seq<char>, id: Seq<char>) -> bool {
    &&& written(db, (SYSTEM_INSERT_SQL@, seq![None, text_slot(name), None]))
    &&& exists|q: Exchange|
        q.on() == db && #[trigger] q.handed() == (SYSTEM_ID_SQL@, seq![Param::Text(name)]) && first_text_is(q.reply(), id)
}

/// SQLite answered `id` when asked for the id of the IP address `ip` of the
/// system `system_id`.
pub open spec fn ip_id_read(db: Seq<char>, system_id: Seq<char>, ip: Seq<char>, id: Seq<char>) -> bool {
    exists|q: Exchange|
        q.on() == db && #[trigger] q.handed() == (IP_ID_SQL@, seq![Param::Text(system_id), Param::Text(ip)]) && first_text_is(
            q.reply(),
            id,
        )
}

/// A port was recorded: its row was looked up; a found row was refreshed
/// (and marked as baseline, for a baseline import), an absent one added.
pub open spec fn port_written(db: Seq<char>, system_id: Seq<char>, ip: Param, port: u16, source: Seq<char>, baseline: bool) -> bool {
    exists|q: Exchange|
        q.on() == db && #[trigger] q.handed() == (PORT_LOOKUP_SQL@, seq![Param::Text(system_id), ip, Param::Integer(port as i64)])
            && (q.reply().len() > 0 ==> exists|id: Seq<char>|
            first_text_is(q.reply(), id) && #[trigger] written(db, port_refresh_template(baseline, id)))
            && (q.reply().len() == 0 ==> written(db, port_insert_template(baseline, system_id, ip, port, source)))
}

/// The refresh of the port row `id`.
pub open spec fn port_refresh_template(baseline: bool, id: Seq<char>) -> Template {
    (if baseline {
        PORT_MARK_SQL@
    } else {
        PORT_TOUCH_SQL@
    }, seq![None, text_slot(id)])
}

/// The insert of a port row.
pub open spec fn port_insert_template(
    baseline: bool,
    system_id: Seq<char>,
    ip: Param,
    port: u16,
    source: Seq<char>,
) -> Template {
    (if baseline {
        PORT_INSERT_BASELINE_SQL@
    } else {
        PORT_INSERT_SQL@
    }, seq![None, text_slot(system_id), Some(ip), Some(Param::Integer(port as i64)), text_slot(source), None])
}

/// Every port of the list was recorded (as baseline, for a baseline
/// import) on the IP `ip`.
pub open spec fn ports_written(db: Seq<char>, system_id: Seq<char>, ip: Param, ports: Seq<u16>, source: Seq<char>, baseline: bool) -> bool {
    forall|j: int| 0 <= j < ports.len() ==> port_written(db, system_id, ip, #[trigger] ports[j], source, baseline)
}

/// The statement that adds or refreshes a discovered IP address of a system.
pub const IP_UPSERT_DISCOVERED_SQL: &'static str = "INSERT INTO ip_addresses (id, system_id, ip, source, is_baseline, created_at, updated_at)
                         VALUES (?1, ?2, ?3, ?4, 0, ?5, ?5)
                         ON CONFLICT(system_id, ip) DO UPDATE SET
                            source = CASE WHEN ip_addresses.source = 'resolved' THEN excluded.source ELSE ip_addresses.source END,
                            updated_at = excluded.updated_at";

/// The IP parameter of imported ports: NULL without an IP; otherwise the IP
/// was upserted (as baseline, for a baseline import) and `p` is the id
/// SQLite gave for it.
pub open spec fn import_ip_param(db: Seq<char>, system_id: Seq<char>, ip: Option<Seq<char>>, source: Seq<char>, baseline: bool, p: Param) -> bool {
    match ip {
        None => p == Param::Null,
        Some(v) => written(db, 
            (if baseline { IP_UPSERT_SQL@ } else { IP_UPSERT_DISCOVERED_SQL@ }, seq![
                None,
                text_slot(system_id),
                text_slot(v),
                text_slot(source),
                None,
            ]),
        ) && ip_param_is(db, system_id, ip, p),
    }
}

/// What an import of ports of a system wrote: under the id SQLite gave for
/// the trimmed system name, the IP (when given and not blank) and every
/// port on it, in a transaction that ran nothing but import statements and was
/// committed.
pub open spec fn ports_imported(db: Seq<char>, 
    system: Seq<char>,
    ip: Option<Seq<char>>,
    ports: Seq<u16>,
    source: Seq<char>,
    baseline: bool,
) -> bool {
    &&& committed_among(db, import_statements())
    &&& exists|sid: Seq<char>, p: Param|
        #[trigger] system_id_read(db, trim(system), sid) && import_ip_param(db, sid, spec_trimmed_opt(ip), source, baseline, p)
            && #[trigger] ports_written(db, sid, p, ports, source, baseline)
}

/// The IP parameter of the ports of a row: the id read for its IP, or NULL
/// when it has none.
pub open spec fn ip_param_is(db: Seq<char>, system_id: Seq<char>, ip: Option<Seq<char>>, p: Param) -> bool {
    match ip {
        None => p == Param::Null,
        Some(v) => p matches Param::Text(id) && ip_id_read(db, system_id, v, id),
    }
}

/// What a baseline import wrote for one spreadsheet row of the system
/// `system_id`: its domain (trailing dots removed) with its bind IP; and,
/// unless the domain was only dots, its IP, its ports on that IP and its
/// URL, each with the import's `source`.
pub open spec fn row_assets_written(db: Seq<char>, row: BaselineImportRow, source: Seq<char>, system_id: Seq<char>) -> bool {
    let name = spec_trimmed_opt(opt_view(row.name));
    let ip = spec_trimmed_opt(opt_view(row.ip));
    let url = spec_trimmed_opt(opt_view(row.url));
    &&& name is Some && trim_end_char(name.unwrap(), '.').len() > 0 ==> written(db, 
        (DOMAIN_UPSERT_SQL@, seq![
            None,
            text_slot(system_id),
            text_slot(trim_end_char(name.unwrap(), '.')),
            opt_slot(spec_trimmed_opt(opt_view(row.bind_ip))),
            None,
        ]),
    )
    &&& !(name is Some && trim_end_char(name.unwrap(), '.').len() == 0) ==> {
        &&& ip is Some ==> written(db, 
            (IP_UPSERT_SQL@, seq![None, text_slot(system_id), text_slot(ip.unwrap()), text_slot(source), None]),
        )
        &&& exists|p: Param| ip_param_is(db, system_id, ip, p) && #[trigger] ports_written(db, system_id, p, row.ports@, source, true)
        &&& url is Some ==> written(db, 
            (URL_UPSERT_SQL@, seq![None, text_slot(system_id), text_slot(url.unwrap()), text_slot(source), None]),
        )
    }
}

/// What a baseline import wrote for one row: nothing for a blank system;
/// otherwise the assets of the row under the id SQLite gave for its system.
pub open spec fn row_written(db: Seq<char>, row: BaselineImportRow, source: Seq<char>) -> bool {
    trim(row.system@).len() > 0 ==> exists|id: Seq<char>|
        #[trigger] system_id_read(db, trim(row.system@), id) && row_assets_written(db, row, source, id)
}

/// Creates the named system when absent and returns its id.
fn ensure_system(tx: &mut Tx, name: &str) -> (r: Result<String, WatcherError>)
    ensures
        final(tx).db() == old(tx).db(),
        only_among(old(tx).log(), import_statements()) ==> only_among(final(tx).log(), import_statements()),
        r matches Ok(id) ==> system_id_read(old(tx).db(), name@, id@),
        r matches Err(e) ==> e.is_storage(),
{
    let mut insert: Vec<SqlValue> = Vec::new();
    insert.push(SqlValue::Text(sql::new_id()));
    insert.push(sql::text_param(name));
    insert.push(SqlValue::Text(sql::now()));
    let x = sql::tx_perform(tx, SYSTEM_INSERT_SQL, &insert)?;
    assert(fits(x.handed(), (SYSTEM_INSERT_SQL@, seq![None, text_slot(name@), None])));
    let mut select: Vec<SqlValue> = Vec::new();
    select.push(sql::text_param(name));
    let q = sql::tx_ask(tx, SYSTEM_ID_SQL, &select)?;
    assert(q.handed() == (SYSTEM_ID_SQL@, seq![Param::Text(name@)]));
    let rows = q.rows();
    if rows.len() == 0 {
        return Err(WatcherError::NoRows);
    }
    let id = sql::get_text(&rows[0], 0)?;
    assert(first_text_is(q.reply(), id@));
    Ok(id)
}

/// The cache holds an entry for `name`.
pub open spec fn cache_has(cache: Seq<(String, String)>, name: Seq<char>) -> bool {
    exists|k: int| 0 <= k < cache.len() && (#[trigger] cache[k]).0@ == name
}

/// Looks the system up in a name-to-id cache, filling the cache on a miss:
/// a cached name gives its cached id and leaves the cache as it is; an
/// uncached one is looked up (created when absent) and appended.
fn cached_system_id(
    tx: &mut Tx,
    cache: &mut Vec<(String, String)>,
    name: &str,
) -> (r: Result<String, WatcherError>)
    requires
        forall|k: int| 0 <= k < old(cache)@.len() ==> system_id_read(old(tx).db(), (#[trigger] old(cache)@[k]).0@, old(cache)@[k].1@),
    ensures
        final(tx).db() == old(tx).db(),
        only_among(old(tx).log(), import_statements()) ==> only_among(final(tx).log(), import_statements()),
        forall|k: int| 0 <= k < final(cache)@.len() ==> system_id_read(old(tx).db(), (#[trigger] final(cache)@[k]).0@, final(cache)@[k].1@),
        r matches Ok(id) ==> system_id_read(old(tx).db(), name@, id@),
        r matches Err(e) ==> e.is_storage(),
        cache_has(old(cache)@, name@) ==> final(cache)@ == old(cache)@ && (r matches Ok(id) && exists|k: int|
            0 <= k < old(cache)@.len() && (#[trigger] old(cache)@[k]).0@ == name@ && old(cache)@[k].1@ == id@),
        !cache_has(old(cache)@, name@) ==> match r {
            Ok(id) => final(cache)@.len() == old(cache)@.len() + 1 && final(cache)@.drop_last() == old(cache)@
                && final(cache)@.last().0@ == name@ && final(cache)@.last().1@ == id@,
            Err(_) => final(cache)@ == old(cache)@,
        },
{
    let mut i: usize = 0;
    while i < cache.len()
        invariant
            i <= cache@.len(),
            cache@ == old(cache)@,
            forall|k: int| 0 <= k < i ==> (#[trigger] cache@[k]).0@ != name@,
            tx.db() == old(tx).db(),
            tx.log() == old(tx).log(),
            forall|k: int| 0 <= k < cache@.len() ==> system_id_read(old(tx).db(), (#[trigger] cache@[k]).0@, cache@[k].1@),
        decreases cache.len() - i,
    {
        if text::str_eq(cache[i].0.as_str(), name) {
            let id = cache[i].1.clone();
            assert(old(cache)@[i as int].1@ == id@);
            assert(system_id_read(old(tx).db(), cache@[i as int].0@, cache@[i as int].1@));
            return Ok(id);
        }
        i = i + 1;
    }
    let id = ensure_system(tx, name)?;
    let entry = (String::from_str(name), id.clone());
    cache.push(entry);
    assert(cache@.drop_last() =~= old(cache)@);
    Ok(id)
}

/// Every statement text an import runs inside its transaction.
pub open spec fn import_statements() -> Set<Seq<char>> {
    set![
        SYSTEM_INSERT_SQL@,
        SYSTEM_ID_SQL@,
        DOMAIN_UPSERT_SQL@,
        IP_UPSERT_SQL@,
        IP_UPSERT_DISCOVERED_SQL@,
        IP_ID_SQL@,
        URL_UPSERT_SQL@,
        PORT_LOOKUP_SQL@,
        PORT_MARK_SQL@,
        PORT_TOUCH_SQL@,
        PORT_INSERT_BASELINE_SQL@,
        PORT_INSERT_SQL@,
        IMPORT_BASELINE_URLS_SQL@,
        IMPORT_URLS_SQL@,
        IMPORT_BASELINE_IPS_SQL@,
        IMPORT_IPS_SQL@,
        IMPORT_BASELINE_NAMES_SQL@,
        IMPORT_NAMES_SQL@,
    ]
}

impl Database {
    /// Imports spreadsheet rows as baseline assets in one transaction and
    /// reports how many of each kind were written. Rows with a blank system
    /// are skipped; a row whose domain name is only dots counts its system
    /// and nothing else.
    #[verifier::spinoff_prover]
    #[verifier::rlimit(60)]
    pub fn import_baseline_rows(&self, rows: &[BaselineImportRow], source: &str) -> (r: Result<
        BaselineImportSummary,
        WatcherError,
    >)
        requires
            import_summary(rows@).3 <= usize::MAX,
        ensures
            r matches Ok(s) ==> summary_is(s, import_summary(rows@)),
            r matches Ok(s) ==> forall|k: int| 0 <= k < rows@.len() ==> #[trigger] row_written(self.spec_path(), rows@[k], source@),
            r matches Ok(_) ==> committed_among(self.spec_path(), import_statements()),
            r matches Err(e) ==> e.is_storage(),
    {
        let conn = self.conn()?;
        let mut tx = sql::begin(conn)?;
        let mut cache: Vec<(String, String)> = Vec::new();
        let mut summary = BaselineImportSummary { systems: 0, names: 0, ips: 0, ports: 0, urls: 0 };
        let mut k: usize = 0;
        while k < rows.len()
            invariant
                tx.db() == self.spec_path(),
                only_among(tx.log(), import_statements()),
                k <= rows@.len(),
                summary_is(summary, import_summary(rows@.take(k as int))),
                summary.systems <= k,
                summary.names <= k,
                summary.ips <= k,
                summary.urls <= k,
                import_summary(rows@).3 <= usize::MAX,
                forall|c: int| 0 <= c < cache@.len() ==> system_id_read(self.spec_path(), (#[trigger] cache@[c]).0@, cache@[c].1@),
                forall|j: int| 0 <= j < k ==> #[trigger] row_written(self.spec_path(), rows@[j], source@),
            decreases rows.len() - k,
        {
            proof {
                assert(rows@.take(k + 1).drop_last() =~= rows@.take(k as int));
                assert(rows@.take(k + 1).last() == rows@[k as int]);
            }
            let row = &rows[k];
            let system_key = text::trimmed(row.system.as_str());
            if system_key.len() == 0 {
                assert(row_written(self.spec_path(), rows@[k as int], source@));
                k = k + 1;
                continue;
            }
            let system = text::string_of(&system_key);
            let system_id = cached_system_id(&mut tx, &mut cache, system.as_str())?;
            let name = match &row.name {
                Some(n) => helpers::trimmed_opt(Some(n.as_str())),
                None => None,
            };
            assert(opt_view(name) == spec_trimmed_opt(opt_view(row.name)));
            let mut skip_rest = false;
            let mut named = false;
            let ghost nv = opt_view(name);
            match name {
                Some(n) => {
                    let chars = text::chars_of(n.as_str());
                    let key = text::strip_trailing(&chars, '.');
                    if key.len() == 0 {
                        assert(nv is Some && trim_end_char(nv.unwrap(), '.').len() == 0);
                        skip_rest = true;
                    } else {
                        let key_text = text::string_of(&key);
                        let bind_ip = match &row.bind_ip {
                            Some(b) => helpers::trimmed_opt(Some(b.as_str())),
                            None => None,
                        };
                        assert(opt_view(bind_ip) == spec_trimmed_opt(opt_view(row.bind_ip)));
                        let mut params: Vec<SqlValue> = Vec::new();
                        params.push(SqlValue::Text(sql::new_id()));
                        params.push(sql::text_param(system_id.as_str()));
                        params.push(sql::text_param(key_text.as_str()));
                        params.push(match bind_ip {
                            Some(b) => SqlValue::Text(b),
                            None => SqlValue::Null,
                        });
                        params.push(SqlValue::Text(sql::now()));
                        let x = sql::tx_perform(&mut tx, DOMAIN_UPSERT_SQL, &params)?;
                        assert(fits(x.handed(), (DOMAIN_UPSERT_SQL@, seq![
                            None,
                            text_slot(system_id@),
                            text_slot(trim_end_char(n@, '.')),
                            opt_slot(spec_trimmed_opt(opt_view(row.bind_ip))),
                            None,
                        ])));
                        named = true;
                    }
                },
                None => {},
            }
            if skip_rest {
                summary.systems = summary.systems + 1;
                assert(row_assets_written(self.spec_path(), rows@[k as int], source@, system_id@));
                assert(row_written(self.spec_path(), rows@[k as int], source@));
                k = k + 1;
                continue;
            }
            let ip = match &row.ip {
                Some(value) => helpers::trimmed_opt(Some(value.as_str())),
                None => None,
            };
            assert(opt_view(ip) == spec_trimmed_opt(opt_view(row.ip)));
            let has_ip = ip.is_some();
            let ghost ipv = opt_view(ip);
            let ip_param: SqlValue = match ip {
                Some(value) => {
                    let mut params: Vec<SqlValue> = Vec::new();
                    params.push(SqlValue::Text(sql::new_id()));
                    params.push(sql::text_param(system_id.as_str()));
                    params.push(sql::text_param(value.as_str()));
                    params.push(sql::text_param(source));
                    params.push(SqlValue::Text(sql::now()));
                    let x = sql::tx_perform(&mut tx, IP_UPSERT_SQL, &params)?;
                    assert(fits(x.handed(), (IP_UPSERT_SQL@, seq![
                        None,
                        text_slot(system_id@),
                        text_slot(value@),
                        text_slot(source@),
                        None,
                    ])));
                    let mut select: Vec<SqlValue> = Vec::new();
                    select.push(sql::text_param(system_id.as_str()));
                    select.push(sql::text_param(value.as_str()));
                    let q = sql::tx_ask(&mut tx, IP_ID_SQL, &select)?;
                    assert(q.handed() == (IP_ID_SQL@, seq![Param::Text(system_id@), Param::Text(value@)]));
                    let found = q.rows();
                    if found.len() == 0 {
                        return Err(WatcherError::NoRows);
                    }
                    let id = sql::get_text(&found[0], 0)?;
                    assert(first_text_is(q.reply(), id@));
                    assert(ip_id_read(self.spec_path(), system_id@, value@, id@));
                    let p = sql::text_param(id.as_str());
                    assert(ipv == Some(value@));
                    assert(p@ == Param::Text(id@));
                    assert(ip_param_is(self.spec_path(), system_id@, ipv, p@));
                    p
                },
                None => SqlValue::Null,
            };
            assert(ip_param_is(self.spec_path(), system_id@, spec_trimmed_opt(opt_view(row.ip)), ip_param@));
            self.write_baseline_ports(&mut tx, system_id.as_str(), &ip_param, &row.ports, source)?;
            let url = match &row.url {
                Some(value) => helpers::trimmed_opt(Some(value.as_str())),
                None => None,
            };
            assert(opt_view(url) == spec_trimmed_opt(opt_view(row.url)));
            let has_url = url.is_some();
            match url {
                Some(value) => {
                    let mut params: Vec<SqlValue> = Vec::new();
                    params.push(SqlValue::Text(sql::new_id()));
                    params.push(sql::text_param(system_id.as_str()));
                    params.push(sql::text_param(value.as_str()));
                    params.push(sql::text_param(source));
                    params.push(SqlValue::Text(sql::now()));
                    let x = sql::tx_perform(&mut tx, URL_UPSERT_SQL, &params)?;
                    assert(fits(x.handed(), (URL_UPSERT_SQL@, seq![
                        None,
                        text_slot(system_id@),
                        text_slot(value@),
                        text_slot(source@),
                        None,
                    ])));
                },
                None => {},
            }
            proof {
                assert(ports_written(self.spec_path(), system_id@, ip_param@, row.ports@, source@, true));
                assert(row_assets_written(self.spec_path(), *row, source@, system_id@));
                assert(row_written(self.spec_path(), rows@[k as int], source@));
            }
            let added_ports = row.ports.len();
            proof {
                lemma_summary_ports_prefix(rows@, k + 1);
            }
            summary.systems = summary.systems + 1;
            if named {
                summary.names = summary.names + 1;
            }
            if has_ip {
                summary.ips = summary.ips + 1;
            }
            summary.ports = summary.ports + added_ports;
            if has_url {
                summary.urls = summary.urls + 1;
            }
            k = k + 1;
        }
        let ghost log = tx.log();
        sql::commit(tx)?;
        assert(committed(self.spec_path(), log));
        assert(rows@.take(rows@.len() as int) =~= rows@);
        Ok(summary)
    }

    /// Marks the given ports of a system (on the given IP, or on none) as
    /// baseline, adding those that are absent.
    fn write_baseline_ports(
        &self,
        tx: &mut Tx,
        system_id: &str,
        ip_param: &SqlValue,
        ports: &[u16],
        source: &str,
    ) -> (r: Result<(), WatcherError>)
        requires
            old(tx).db() == self.spec_path(),
        ensures
            final(tx).db() == old(tx).db(),
            only_among(old(tx).log(), import_statements()) ==> only_among(final(tx).log(), import_statements()),
            r matches Ok(()) ==> ports_written(self.spec_path(), system_id@, ip_param@, ports@, source@, true),
            r matches Err(e) ==> e.is_storage(),
    {
        let mut i: usize = 0;
        while i < ports.len()
            invariant
                tx.db() == old(tx).db(),
                old(tx).db() == self.spec_path(),
                only_among(old(tx).log(), import_statements()) ==> only_among(tx.log(), import_statements()),
                i <= ports@.len(),
                forall|j: int|
                    0 <= j < i ==> port_written(self.spec_path(), system_id@, ip_param@, #[trigger] ports@[j], source@, true),
            decreases ports.len() - i,
        {
            self.write_port(tx, system_id, ip_param, ports[i], source, true)?;
            i = i + 1;
        }
        Ok(())
    }

    /// Records one imported port: an existing row gets `last_seen` refreshed
    /// (and the baseline flag, for a baseline import); an absent one is added.
    fn write_port(
        &self,
        tx: &mut Tx,
        system_id: &str,
        ip_param: &SqlValue,
        port: u16,
        source: &str,
        baseline: bool,
    ) -> (r: Result<(), WatcherError>)
        requires
            old(tx).db() == self.spec_path(),
        ensures
            final(tx).db() == old(tx).db(),
            only_among(old(tx).log(), import_statements()) ==> only_among(final(tx).log(), import_statements()),
            r matches Ok(()) ==> port_written(self.spec_path(), system_id@, ip_param@, port, source@, baseline),
            r matches Err(e) ==> e.is_storage(),
    {
        let mut select: Vec<SqlValue> = Vec::new();
        select.push(sql::text_param(system_id));
        select.push(sql::copy_value(ip_param));
        select.push(SqlValue::Integer(port as i64));
        let q = sql::tx_ask(tx, PORT_LOOKUP_SQL, &select)?;
        assert(q.handed() == (PORT_LOOKUP_SQL@, seq![Param::Text(system_id@), ip_param@, Param::Integer(port as i64)]));
        let found = q.rows();
        if found.len() > 0 {
            let id = sql::get_text(&found[0], 0)?;
            let ghost idv = id@;
            let mut update: Vec<SqlValue> = Vec::new();
            update.push(SqlValue::Text(sql::now()));
            update.push(SqlValue::Text(id));
            let sql_text = if baseline {
                PORT_MARK_SQL
            } else {
                PORT_TOUCH_SQL
            };
            let x = sql::tx_perform(tx, sql_text, &update)?;
            assert(fits(x.handed(), port_refresh_template(baseline, idv)));
            assert(written(self.spec_path(), port_refresh_template(baseline, idv)));
            assert(first_text_is(q.reply(), idv));
            assert(port_written(self.spec_path(), system_id@, ip_param@, port, source@, baseline));
        } else {
            let mut insert: Vec<SqlValue> = Vec::new();
            insert.push(SqlValue::Text(sql::new_id()));
            insert.push(sql::text_param(system_id));
            insert.push(sql::copy_value(ip_param));
            insert.push(SqlValue::Integer(port as i64));
            insert.push(sql::text_param(source));
            insert.push(SqlValue::Text(sql::now()));
            let sql_text = if baseline {
                PORT_INSERT_BASELINE_SQL
            } else {
                PORT_INSERT_SQL
            };
            let x = sql::tx_perform(tx, sql_text, &insert)?;
            assert(fits(x.handed(), port_insert_template(baseline, system_id@, ip_param@, port, source@)));
            assert(written(self.spec_path(), port_insert_template(baseline, system_id@, ip_param@, port, source@)));
            assert(port_written(self.spec_path(), system_id@, ip_param@, port, source@, baseline));
        }
        Ok(())
    }

    /// Imports ports of the named system (on `ip`, when given and not blank)
    /// in one transaction, as baseline when `baseline`; returns how many
    /// ports were written, one per entry of `ports`.
    fn import_ports(
        &self,
        system: &str,
        ip: Option<&str>,
        ports: &[u16],
        source: &str,
        baseline: bool,
    ) -> (r: Result<usize, WatcherError>)
        ensures
            trim(system@).len() == 0 ==> (r matches Err(e) && e.is_invalid_with(
                "system name must not be empty"@,
            )),
            trim(system@).len() > 0 ==> (r matches Err(e) ==> e.is_storage()),
            r matches Ok(n) ==> n == ports@.len(),
            r matches Ok(_) ==> ports_imported(self.spec_path(), system@, opt_str(ip), ports@, source@, baseline),
    {
        let key = text::trimmed(system);
        if key.len() == 0 {
            return Err(error::invalid("system name must not be empty"));
        }
        let system_name = text::string_of(&key);
        let conn = self.conn()?;
        let mut tx = sql::begin(conn)?;
        let system_id = ensure_system(&mut tx, system_name.as_str())?;
        let ip_value = helpers::trimmed_opt(ip);
        let ghost ipv = opt_view(ip_value);
        let ip_param = match ip_value {
            Some(value) => {
                let mut params: Vec<SqlValue> = Vec::new();
                params.push(SqlValue::Text(sql::new_id()));
                params.push(sql::text_param(system_id.as_str()));
                params.push(sql::text_param(value.as_str()));
                params.push(sql::text_param(source));
                params.push(SqlValue::Text(sql::now()));
                let upsert = if baseline {
                    IP_UPSERT_SQL
                } else {
                    IP_UPSERT_DISCOVERED_SQL
                };
                let x = sql::tx_perform(&mut tx, upsert, &params)?;
                assert(fits(x.handed(), (if baseline { IP_UPSERT_SQL@ } else { IP_UPSERT_DISCOVERED_SQL@ }, seq![
                    None,
                    text_slot(system_id@),
                    text_slot(value@),
                    text_slot(source@),
                    None,
                ])));
                let mut select: Vec<SqlValue> = Vec::new();
                select.push(sql::text_param(system_id.as_str()));
                select.push(sql::text_param(value.as_str()));
                let q = sql::tx_ask(&mut tx, IP_ID_SQL, &select)?;
                assert(q.handed() == (IP_ID_SQL@, seq![Param::Text(system_id@), Param::Text(value@)]));
                let found = q.rows();
                if found.len() == 0 {
                    return Err(WatcherError::NoRows);
                }
                let id = sql::get_text(&found[0], 0)?;
                assert(first_text_is(q.reply(), id@));
                assert(ip_id_read(self.spec_path(), system_id@, value@, id@));
                let p = SqlValue::Text(id);
                assert(ipv == Some(value@));
                assert(import_ip_param(self.spec_path(), system_id@, ipv, source@, baseline, p@));
                p
            },
            None => SqlValue::Null,
        };
        assert(import_ip_param(self.spec_path(), system_id@, spec_trimmed_opt(opt_str(ip)), source@, baseline, ip_param@));
        let mut count: usize = 0;
        while count < ports.len()
            invariant
                tx.db() == self.spec_path(),
                only_among(tx.log(), import_statements()),
                count <= ports@.len(),
                trim(system@).len() > 0,
                forall|j: int|
                    0 <= j < count ==> port_written(self.spec_path(), system_id@, ip_param@, #[trigger] ports@[j], source@, baseline),
            decreases ports.len() - count,
        {
            self.write_port(&mut tx, system_id.as_str(), &ip_param, ports[count], source, baseline)?;
            count = count + 1;
        }
        let ghost log = tx.log();
        sql::commit(tx)?;
        assert(committed(self.spec_path(), log));
        assert(ports_written(self.spec_path(), system_id@, ip_param@, ports@, source@, baseline));
        assert(ports_imported(self.spec_path(), system@, opt_str(ip), ports@, source@, baseline));
        Ok(count)
    }

    /// Imports baseline ports of the named system; returns how many were
    /// written (one per entry, duplicates included).
    pub fn import_baseline_ports_for_system(
        &self,
        system: &str,
        ip: Option<&str>,
        ports: &[u16],
        source: &str,
    ) -> (r: Result<usize, WatcherError>)
        ensures
            trim(system@).len() == 0 ==> (r matches Err(e) && e.is_invalid_with(
                "system name must not be empty"@,
            )),
            trim(system@).len() > 0 ==> (r matches Err(e) ==> e.is_storage()),
            r matches Ok(n) ==> n == ports@.len(),
            r matches Ok(_) ==> ports_imported(self.spec_path(), system@, opt_str(ip), ports@, source@, true),
    {
        self.import_ports(system, ip, ports, source, true)
    }

    /// Imports discovered ports of the named system; returns how many were
    /// written (one per entry, duplicates included).
    pub fn import_ports_for_system(
        &self,
        system: &str,
        ip: Option<&str>,
        ports: &[u16],
        source: &str,
    ) -> (r: Result<usize, WatcherError>)
        ensures
            trim(system@).len() == 0 ==> (r matches Err(e) && e.is_invalid_with(
                "system name must not be empty"@,
            )),
            trim(system@).len() > 0 ==> (r matches Err(e) ==> e.is_storage()),
            r matches Ok(n) ==> n == ports@.len(),
            r matches Ok(_) ==> ports_imported(self.spec_path(), system@, opt_str(ip), ports@, source@, false),
    {
        self.import_ports(system, ip, ports, source, false)
    }

    /// Imports baseline URLs of the named system; returns how many values
    /// were not blank.
    pub fn import_baseline_urls_for_system(&self, system: &str, values: &[String], source: &str) -> (r:
        Result<usize, WatcherError>)
        ensures
            import_outcome(system@, values@, false, r),
            r matches Ok(_) ==> values_written(self.spec_path(), system@, values@, IMPORT_BASELINE_URLS_SQL@, Some(source@), false),
    {
        self.import_values_for_system(
            system,
            values,
            IMPORT_BASELINE_URLS_SQL,
            Some(source),
            false,
        )
    }

    /// Imports discovered URLs of the named system; returns how many values
    /// were not blank.
    pub fn import_urls_for_system(&self, system: &str, values: &[String], source: &str) -> (r:
        Result<usize, WatcherError>)
        ensures
            import_outcome(system@, values@, false, r),
            r matches Ok(_) ==> values_written(self.spec_path(), system@, values@, IMPORT_URLS_SQL@, Some(source@), false),
    {
        self.import_values_for_system(
            system,
            values,
            IMPORT_URLS_SQL,
            Some(source),
            false,
        )
    }

    /// Imports baseline IP addresses of the named system; returns how many
    /// values were not blank.
    pub fn import_baseline_ips_for_system(&self, system: &str, values: &[String], source: &str) -> (r:
        Result<usize, WatcherError>)
        ensures
            import_outcome(system@, values@, false, r),
            r matches Ok(_) ==> values_written(self.spec_path(), system@, values@, IMPORT_BASELINE_IPS_SQL@, Some(source@), false),
    {
        self.import_values_for_system(
            system,
            values,
            IMPORT_BASELINE_IPS_SQL,
            Some(source),
            false,
        )
    }

    /// Imports discovered IP addresses of the named system; returns how many
    /// values were not blank.
    pub fn import_ips_for_system(&self, system: &str, values: &[String], source: &str) -> (r:
        Result<usize, WatcherError>)
        ensures
            import_outcome(system@, values@, false, r),
            r matches Ok(_) ==> values_written(self.spec_path(), system@, values@, IMPORT_IPS_SQL@, Some(source@), false),
    {
        self.import_values_for_system(
            system,
            values,
            IMPORT_IPS_SQL,
            Some(source),
            false,
        )
    }

    /// Imports baseline domain names of the named system; returns how many
    /// values were not blank.
    pub fn import_baseline_names_for_system(&self, system: &str, values: &[String]) -> (r: Result<
        usize,
        WatcherError,
    >)
        ensures
            import_outcome(system@, values@, true, r),
            r matches Ok(_) ==> values_written(self.spec_path(), system@, values@, IMPORT_BASELINE_NAMES_SQL@, None, true),
    {
        self.import_values_for_system(
            system,
            values,
            IMPORT_BASELINE_NAMES_SQL,
            None,
            true,
        )
    }

    /// Imports discovered domain names of the named system (with an optional
    /// bind IP); returns how many values were not blank.
    pub fn import_names_for_system(&self, system: &str, values: &[String], bind_ip: Option<&str>) -> (r:
        Result<usize, WatcherError>)
        ensures
            import_outcome(system@, values@, true, r),
            r matches Ok(_) ==> values_written(self.spec_path(), system@, values@, IMPORT_NAMES_SQL@, spec_trimmed_opt(opt_str(bind_ip)), true),
    {
        let bind = helpers::trimmed_opt(bind_ip);
        match bind {
            Some(b) => self.import_values_for_system(
                system,
                values,
                IMPORT_NAMES_SQL,
                Some(b.as_str()),
                true,
            ),
            None => self.import_values_for_system(
                system,
                values,
                IMPORT_NAMES_SQL,
                None,
                true,
            ),
        }
    }

    /// Upserts every non-blank value of the named system with `upsert_sql`
    /// in one transaction and returns how many there were.
    fn import_values_for_system(
        &self,
        system: &str,
        values: &[String],
        upsert_sql: &str,
        parameter4: Option<&str>,
        domain: bool,
    ) -> (r: Result<usize, WatcherError>)
        requires
            import_statements().contains(upsert_sql@),
        ensures
            import_outcome(system@, values@, domain, r),
            r matches Ok(_) ==> values_written(self.spec_path(), system@, values@, upsert_sql@, opt_str(parameter4), domain),
    {
        let key = text::trimmed(system);
        if key.len() == 0 {
            return Err(error::invalid("system name must not be empty"));
        }
        let system_name = text::string_of(&key);
        let conn = self.conn()?;
        let mut tx = sql::begin(conn)?;
        let system_id = ensure_system(&mut tx, system_name.as_str())?;
        let mut count: usize = 0;
        let mut i: usize = 0;
        while i < values.len()
            invariant
                tx.db() == self.spec_path(),
                only_among(tx.log(), import_statements()),
                import_statements().contains(upsert_sql@),
                i <= values@.len(),
                count == count_nonblank(values@.take(i as int)),
                count <= i,
                !has_degenerate_value(values@.take(i as int), domain),
                trim(system@).len() > 0,
                system_id_read(self.spec_path(), trim(system@), system_id@),
                forall|j: int|
                    0 <= j < i && trim((#[trigger] values@[j])@).len() > 0 ==> written(self.spec_path(), 
                        value_template(upsert_sql@, system_id@, values@[j]@, opt_str(parameter4), domain),
                    ),
            decreases values.len() - i,
        {
            proof {
                assert(values@.take(i + 1).drop_last() =~= values@.take(i as int));
                assert(values@.take(i + 1).last() == values@[i as int]);
            }
            let trimmed = text::trimmed(values[i].as_str());
            if trimmed.len() == 0 {
                proof {
                    assert forall|j: int|
                        0 <= j < i + 1 && trim((#[trigger] values@.take(i + 1)[j])@).len() > 0
                            implies import_key(values@.take(i + 1)[j]@, domain).len() > 0 by {
                        if j < i {
                            assert(values@.take(i + 1)[j] == values@.take(i as int)[j]);
                        }
                    }
                }
                i = i + 1;
                continue;
            }
            let value = if domain {
                text::strip_trailing(&trimmed, '.')
            } else {
                trimmed
            };
            if value.len() == 0 {
                proof {
                    assert(trim(values@[i as int]@).len() > 0);
                    assert(import_key(values@[i as int]@, domain).len() == 0);
                    assert(has_degenerate_value(values@, domain));
                }
                return Err(error::invalid("asset value must not be empty"));
            }
            let value_text = text::string_of(&value);
            let mut params: Vec<SqlValue> = Vec::new();
            params.push(SqlValue::Text(sql::new_id()));
            params.push(sql::text_param(system_id.as_str()));
            params.push(sql::text_param(value_text.as_str()));
            params.push(sql::opt_text(parameter4));
            params.push(SqlValue::Text(sql::now()));
            let x = sql::tx_perform(&mut tx, upsert_sql, &params)?;
            assert(fits(x.handed(), value_template(upsert_sql@, system_id@, values@[i as int]@, opt_str(parameter4), domain)));
            proof {
                assert forall|j: int|
                    0 <= j < i + 1 && trim((#[trigger] values@.take(i + 1)[j])@).len() > 0
                        implies import_key(values@.take(i + 1)[j]@, domain).len() > 0 by {
                    if j < i {
                        assert(values@.take(i + 1)[j] == values@.take(i as int)[j]);
                    }
                }
            }
            count = count + 1;
            i = i + 1;
        }
        let ghost log = tx.log();
        sql::commit(tx)?;
        assert(committed(self.spec_path(), log));
        assert(values@.take(values@.len() as int) =~= values@);
        assert(values_written(self.spec_path(), system@, values@, upsert_sql@, opt_str(parameter4), domain));
        Ok(count)
    }
}

/// The outcome of importing `values` into the named system: a blank system
/// is rejected; a value made only of dots (for domain names) is rejected;
/// otherwise only storage can fail, and success reports how many values
/// were not blank.
/// The upsert behind [`Database::import_baseline_urls_for_system`].
pub const IMPORT_BASELINE_URLS_SQL: &'static str = "INSERT INTO urls (id, system_id, url, source, value_score, is_baseline, created_at, updated_at)
             VALUES (?1, ?2, ?3, ?4, 0, 1, ?5, ?5)
             ON CONFLICT(system_id, url) DO UPDATE SET
                source = CASE WHEN urls.source = 'imported' THEN urls.source ELSE excluded.source END,
                is_baseline = 1,
                updated_at = excluded.updated_at";

/// The upsert behind [`Database::import_urls_for_system`].
pub const IMPORT_URLS_SQL: &'static str = "INSERT INTO urls (id, system_id, url, source, value_score, is_baseline, created_at, updated_at)
             VALUES (?1, ?2, ?3, ?4, 0, 0, ?5, ?5)
             ON CONFLICT(system_id, url) DO UPDATE SET
                source = CASE WHEN urls.source = 'imported' THEN urls.source ELSE excluded.source END,
                updated_at = excluded.updated_at";

/// The upsert behind [`Database::import_baseline_ips_for_system`].
pub const IMPORT_BASELINE_IPS_SQL: &'static str = "INSERT INTO ip_addresses (id, system_id, ip, source, is_baseline, created_at, updated_at)
             VALUES (?1, ?2, ?3, ?4, 1, ?5, ?5)
             ON CONFLICT(system_id, ip) DO UPDATE SET
                source = CASE WHEN ip_addresses.source = 'resolved' THEN excluded.source ELSE ip_addresses.source END,
                is_baseline = 1,
                updated_at = excluded.updated_at";

/// The upsert behind [`Database::import_ips_for_system`].
pub const IMPORT_IPS_SQL: &'static str = "INSERT INTO ip_addresses (id, system_id, ip, source, is_baseline, created_at, updated_at)
             VALUES (?1, ?2, ?3, ?4, 0, ?5, ?5)
             ON CONFLICT(system_id, ip) DO UPDATE SET
                source = CASE WHEN ip_addresses.source = 'resolved' THEN excluded.source ELSE ip_addresses.source END,
                updated_at = excluded.updated_at";

/// The upsert behind [`Database::import_baseline_names_for_system`].
pub const IMPORT_BASELINE_NAMES_SQL: &'static str = "INSERT INTO domains (id, system_id, name, is_baseline, created_at, updated_at)
             VALUES (?1, ?2, ?3, 1, ?5, ?5)
             ON CONFLICT(system_id, name) DO UPDATE SET
                is_baseline = 1,
                updated_at = excluded.updated_at";

/// The upsert behind [`Database::import_names_for_system`].
pub const IMPORT_NAMES_SQL: &'static str = "INSERT INTO domains (id, system_id, name, bind_ip, is_baseline, created_at, updated_at)
                 VALUES (?1, ?2, ?3, ?4, 0, ?5, ?5)
                 ON CONFLICT(system_id, name) DO UPDATE SET
                    bind_ip = COALESCE(excluded.bind_ip, domains.bind_ip),
                    updated_at = excluded.updated_at";

/// The upsert of one imported value of the system `system_id`.
pub open spec fn value_template(
    sql: Seq<char>,
    system_id: Seq<char>,
    value: Seq<char>,
    parameter4: Option<Seq<char>>,
    domain: bool,
) -> Template {
    (sql, seq![None, text_slot(system_id), text_slot(import_key(value, domain)), opt_slot(parameter4), None])
}

/// Every value that is not blank was written, in its stored form, with
/// `sql` for the system that SQLite gave for the trimmed `system` name, in
/// a transaction that ran nothing but import statements and was committed.
pub open spec fn values_written(db: Seq<char>, 
    system: Seq<char>,
    values: Seq<String>,
    sql: Seq<char>,
    parameter4: Option<Seq<char>>,
    domain: bool,
) -> bool {
    &&& committed_among(db, import_statements())
    &&& exists|id: Seq<char>|
        #[trigger] system_id_read(db, trim(system), id) && forall|j: int|
            0 <= j < values.len() && trim((#[trigger] values[j])@).len() > 0 ==> written(db, 
                value_template(sql, id, values[j]@, parameter4, domain),
            )
}

pub open spec fn import_outcome(
    system: Seq<char>,
    values: Seq<String>,
    domain: bool,
    r: Result<usize, WatcherError>,
) -> bool {
    &&& trim(system).len() == 0 ==> (r matches Err(e) && e.is_invalid_with(
        "system name must not be empty"@,
    ))
    &&& trim(system).len() > 0 ==> (r matches Err(e) ==> (e.is_storage() || (has_degenerate_value(
        values,
        domain,
    ) && e.is_invalid_with("asset value must not be empty"@))))
    &&& r matches Ok(n) ==> n == count_nonblank(values) && !has_degenerate_value(values, domain)
}

} // verus!
