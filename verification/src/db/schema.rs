//! Creating the database schema and bringing older databases up to date.

use vstd::prelude::*;

use crate::error::WatcherError;
use crate::text::str_eq;

use super::sql::{self, text_of, SqlValue, Exchange, Param, Link, ran};
use super::types::Database;

verus! {

/// Every table and index of the watcher database, created when missing.
pub const SCHEMA_SQL: &'static str = "
            PRAGMA foreign_keys = ON;
            PRAGMA journal_mode = WAL;

            CREATE TABLE IF NOT EXISTS systems (
                id TEXT PRIMARY KEY,
                name TEXT NOT NULL UNIQUE,
                created_at TEXT NOT NULL
            );

            CREATE TABLE IF NOT EXISTS domains (
                id TEXT PRIMARY KEY,
                system_id TEXT NOT NULL REFERENCES systems(id) ON DELETE CASCADE,
                name TEXT NOT NULL,
                bind_ip TEXT,
                last_resolved_ips TEXT,
                is_baseline INTEGER NOT NULL DEFAULT 0,
                created_at TEXT NOT NULL,
                updated_at TEXT NOT NULL,
                UNIQUE(system_id, name)
            );

            CREATE TABLE IF NOT EXISTS ip_addresses (
                id TEXT PRIMARY KEY,
                system_id TEXT NOT NULL REFERENCES systems(id) ON DELETE CASCADE,
                ip TEXT NOT NULL,
                source TEXT NOT NULL,
                is_baseline INTEGER NOT NULL DEFAULT 0,
                created_at TEXT NOT NULL,
                updated_at TEXT NOT NULL,
                UNIQUE(system_id, ip)
            );

            CREATE TABLE IF NOT EXISTS ports (
                id TEXT PRIMARY KEY,
                system_id TEXT NOT NULL REFERENCES systems(id) ON DELETE CASCADE,
                ip_id TEXT REFERENCES ip_addresses(id) ON DELETE CASCADE,
                port INTEGER NOT NULL,
                protocol TEXT NOT NULL DEFAULT 'tcp',
                state TEXT NOT NULL DEFAULT 'unknown',
                source TEXT NOT NULL,
                service TEXT,
                fingerprint TEXT,
                is_web INTEGER NOT NULL DEFAULT 0,
                scheme TEXT,
                is_baseline INTEGER NOT NULL DEFAULT 0,
                first_seen TEXT NOT NULL,
                last_seen TEXT NOT NULL,
                UNIQUE(system_id, ip_id, port)
            );

            CREATE TABLE IF NOT EXISTS urls (
                id TEXT PRIMARY KEY,
                system_id TEXT NOT NULL REFERENCES systems(id) ON DELETE CASCADE,
                url TEXT NOT NULL,
                source TEXT NOT NULL,
                status_code INTEGER,
                title TEXT,
                value_score INTEGER NOT NULL DEFAULT 0,
                is_baseline INTEGER NOT NULL DEFAULT 0,
                created_at TEXT NOT NULL,
                updated_at TEXT NOT NULL,
                UNIQUE(system_id, url)
            );

            CREATE TABLE IF NOT EXISTS dict_paths (
                id TEXT PRIMARY KEY,
                path TEXT NOT NULL UNIQUE,
                enabled INTEGER NOT NULL DEFAULT 1,
                created_at TEXT NOT NULL
            );

            CREATE TABLE IF NOT EXISTS batches (
                id TEXT PRIMARY KEY,
                status TEXT NOT NULL,
                started_at TEXT NOT NULL,
                ended_at TEXT,
                stop_requested INTEGER NOT NULL DEFAULT 0,
                report_zip TEXT,
                error TEXT
            );

            CREATE TABLE IF NOT EXISTS batch_stages (
                batch_id TEXT NOT NULL REFERENCES batches(id) ON DELETE CASCADE,
                stage TEXT NOT NULL,
                status TEXT NOT NULL,
                started_at TEXT NOT NULL,
                ended_at TEXT,
                detail TEXT,
                PRIMARY KEY(batch_id, stage)
            );

            CREATE TABLE IF NOT EXISTS alerts (
                id TEXT PRIMARY KEY,
                batch_id TEXT NOT NULL REFERENCES batches(id) ON DELETE CASCADE,
                system_id TEXT REFERENCES systems(id) ON DELETE SET NULL,
                kind TEXT NOT NULL,
                severity TEXT NOT NULL,
                subject TEXT NOT NULL,
                old_value TEXT,
                new_value TEXT,
                details TEXT,
                created_at TEXT NOT NULL
            );

            CREATE TABLE IF NOT EXISTS vulnerabilities (
                id TEXT PRIMARY KEY,
                batch_id TEXT NOT NULL REFERENCES batches(id) ON DELETE CASCADE,
                system_id TEXT NOT NULL REFERENCES systems(id) ON DELETE CASCADE,
                url TEXT NOT NULL,
                poc TEXT NOT NULL,
                severity TEXT NOT NULL,
                evidence TEXT NOT NULL,
                created_at TEXT NOT NULL,
                UNIQUE(batch_id, system_id, url, poc)
            );

            CREATE TABLE IF NOT EXISTS pending_work (
                id TEXT PRIMARY KEY,
                batch_id TEXT NOT NULL,
                system_id TEXT NOT NULL,
                task_kind TEXT NOT NULL,
                target TEXT NOT NULL,
                status TEXT NOT NULL DEFAULT 'pending',
                priority INTEGER NOT NULL DEFAULT 100,
                created_at TEXT NOT NULL,
                updated_at TEXT NOT NULL,
                UNIQUE(task_kind, target)
            );

            CREATE TABLE IF NOT EXISTS logs (
                id TEXT PRIMARY KEY,
                created_at TEXT NOT NULL,
                level TEXT NOT NULL,
                target TEXT NOT NULL,
                message TEXT NOT NULL,
                fields TEXT
            );

            CREATE TABLE IF NOT EXISTS scan_summaries (
                id TEXT PRIMARY KEY,
                batch_id TEXT NOT NULL REFERENCES batches(id) ON DELETE CASCADE,
                system_id TEXT REFERENCES systems(id) ON DELETE SET NULL,
                ip_id TEXT REFERENCES ip_addresses(id) ON DELETE SET NULL,
                ip TEXT NOT NULL,
                probed_ports INTEGER NOT NULL,
                open_count INTEGER NOT NULL,
                opened_ports TEXT,
                closed_ports TEXT,
                created_at TEXT NOT NULL,
                UNIQUE(batch_id, ip_id, ip)
            );


            CREATE INDEX IF NOT EXISTS idx_domains_name ON domains(name);
            CREATE INDEX IF NOT EXISTS idx_domains_system_baseline_name ON domains(system_id, is_baseline, name);
            CREATE INDEX IF NOT EXISTS idx_domains_baseline_name ON domains(is_baseline, name);
            CREATE INDEX IF NOT EXISTS idx_ips_ip ON ip_addresses(ip);
            CREATE INDEX IF NOT EXISTS idx_ips_system_baseline_ip ON ip_addresses(system_id, is_baseline, ip);
            CREATE INDEX IF NOT EXISTS idx_ips_baseline_ip ON ip_addresses(is_baseline, ip);
            CREATE INDEX IF NOT EXISTS idx_ips_source_ip ON ip_addresses(source, ip);
            CREATE INDEX IF NOT EXISTS idx_ports_state ON ports(state);
            CREATE INDEX IF NOT EXISTS idx_ports_port ON ports(port);
            CREATE INDEX IF NOT EXISTS idx_ports_system_baseline_port ON ports(system_id, is_baseline, port);
            CREATE INDEX IF NOT EXISTS idx_ports_baseline_port ON ports(is_baseline, port);
            CREATE INDEX IF NOT EXISTS idx_ports_state_web ON ports(state, is_web);
            CREATE INDEX IF NOT EXISTS idx_urls_url ON urls(url);
            CREATE INDEX IF NOT EXISTS idx_urls_system_baseline_url ON urls(system_id, is_baseline, url);
            CREATE INDEX IF NOT EXISTS idx_urls_baseline_url ON urls(is_baseline, url);
            CREATE INDEX IF NOT EXISTS idx_dict_paths_enabled_path ON dict_paths(enabled, path);
            CREATE INDEX IF NOT EXISTS idx_alerts_batch ON alerts(batch_id);
            CREATE INDEX IF NOT EXISTS idx_batch_stages_batch ON batch_stages(batch_id, started_at);
            CREATE INDEX IF NOT EXISTS idx_vulns_batch ON vulnerabilities(batch_id);
            CREATE INDEX IF NOT EXISTS idx_pending_work_take ON pending_work(task_kind, status, priority, created_at);
            CREATE INDEX IF NOT EXISTS idx_logs_created_at ON logs(created_at);
            CREATE INDEX IF NOT EXISTS idx_logs_level ON logs(level);
            CREATE INDEX IF NOT EXISTS idx_scan_summaries_batch ON scan_summaries(batch_id);
            CREATE INDEX IF NOT EXISTS idx_scan_summaries_ip ON scan_summaries(ip);

            ";

/// The query that lists the columns of `table`.
pub open spec fn table_info_sql(table: Seq<char>) -> Seq<char> {
    "PRAGMA table_info("@ + table + ")"@
}

/// The statement that adds `column` with `definition` to `table`.
pub open spec fn add_column_sql(table: Seq<char>, column: Seq<char>, definition: Seq<char>) -> Seq<char> {
    "ALTER TABLE "@ + table + " ADD COLUMN "@ + column + " "@ + definition
}

/// Some row of a `PRAGMA table_info` reply names `column` (its second
/// field).
pub open spec fn lists_column(rows: Seq<Vec<SqlValue>>, column: Seq<char>) -> bool {
    exists|i: int| 0 <= i < rows.len() && rows[i]@.len() > 1 && text_of(#[trigger] rows[i]@[1]) == Some(column)
}

/// The statement that marks the pre-existing rows of `table` as baseline.
pub open spec fn mark_baseline_sql(table: Seq<char>) -> Seq<char> {
    if table == "domains"@ {
        "UPDATE domains SET is_baseline = 1 WHERE is_baseline = 0"@
    } else if table == "ip_addresses"@ {
        "UPDATE ip_addresses SET is_baseline = 1 WHERE is_baseline = 0 AND source IN ('imported', 'manual')"@
    } else if table == "ports"@ {
        "UPDATE ports SET is_baseline = 1 WHERE is_baseline = 0 AND source IN ('imported', 'manual')"@
    } else {
        "UPDATE urls SET is_baseline = 1 WHERE is_baseline = 0 AND source IN ('imported', 'manual')"@
    }
}

/// The statement that removes closed port rows that are not baseline.
pub open spec fn prune_ports_sql() -> Seq<char> {
    "DELETE FROM ports WHERE state = 'closed' AND is_baseline = 0"@
}

/// The baseline column of `table` was checked: its column list was asked
/// for, and when the column was missing it was added and the table's
/// imported and manual rows were marked as baseline.
pub open spec fn baseline_column_checked(db: Seq<char>, table: Seq<char>) -> bool {
    exists|q: Exchange|
        q.on() == db && #[trigger] q.handed() == (table_info_sql(table), Seq::<Param>::empty()) && (!lists_column(
            q.reply(),
            "is_baseline"@,
        ) ==> ran(db, add_column_sql(table, "is_baseline"@, "INTEGER NOT NULL DEFAULT 0"@)) && ran(db, 
            mark_baseline_sql(table),
        ))
}

impl Database {
    /// Creates the tables and indexes that are missing, adds the
    /// `is_baseline` column to asset tables that predate it (marking their
    /// imported and manual rows as baseline), and removes closed port rows
    /// that are not baseline.
    pub fn migrate(&self) -> (r: Result<(), WatcherError>)
        ensures
            r matches Ok(()) ==> {
                &&& ran(self.spec_path(), SCHEMA_SQL@)
                &&& baseline_column_checked(self.spec_path(), "domains"@)
                &&& baseline_column_checked(self.spec_path(), "ip_addresses"@)
                &&& baseline_column_checked(self.spec_path(), "ports"@)
                &&& baseline_column_checked(self.spec_path(), "urls"@)
                &&& ran(self.spec_path(), prune_ports_sql())
            },
            r matches Err(e) ==> e.is_storage(),
    {
        let conn = self.conn()?;
        let schema = sql::perform_batch(&conn, SCHEMA_SQL)?;
        assert(schema.handed() == (SCHEMA_SQL@, Seq::<Param>::empty()));
        self.ensure_baseline_column("domains")?;
        self.ensure_baseline_column("ip_addresses")?;
        self.ensure_baseline_column("ports")?;
        self.ensure_baseline_column("urls")?;
        let conn = self.conn()?;
        let params: Vec<SqlValue> = Vec::new();
        let x = sql::perform(&conn, "DELETE FROM ports WHERE state = 'closed' AND is_baseline = 0", &params)?;
        assert(x.handed() == (prune_ports_sql(), Seq::<Param>::empty()));
        Ok(())
    }

    /// Adds the baseline column to `table` when it lacks it, and then marks
    /// the rows that were there as baseline.
    fn ensure_baseline_column(&self, table: &str) -> (r: Result<(), WatcherError>)
        requires
            table@ == "domains"@ || table@ == "ip_addresses"@ || table@ == "ports"@ || table@ == "urls"@,
        ensures
            r matches Ok(()) ==> baseline_column_checked(self.spec_path(), table@),
            r matches Err(e) ==> e.is_storage(),
    {
        let conn = self.conn()?;
        let params: Vec<SqlValue> = Vec::new();
        let pragma = String::from_str("PRAGMA table_info(").concat(table).concat(")");
        let q = sql::ask(&conn, pragma.as_str(), &params)?;
        assert(q.handed() == (table_info_sql(table@), Seq::<Param>::empty()));
        let rows = q.rows();
        let mut i: usize = 0;
        while i < rows.len()
            invariant
                conn.db() == self.spec_path(),
                i <= rows@.len(),
                rows@ == q.reply(),
                q.handed() == (table_info_sql(table@), Seq::<Param>::empty()),
                q.on() == self.spec_path(),
                forall|k: int| 0 <= k < i ==> !(rows@[k]@.len() > 1 && text_of(#[trigger] rows@[k]@[1]) == Some("is_baseline"@)),
            decreases rows.len() - i,
        {
            let name = sql::get_text(&rows[i], 1)?;
            if str_eq(name.as_str(), "is_baseline") {
                assert(text_of(rows@[i as int]@[1]) == Some("is_baseline"@));
                assert(lists_column(q.reply(), "is_baseline"@));
                return Ok(());
            }
            i = i + 1;
        }
        let alter = String::from_str("ALTER TABLE ").concat(table).concat(" ADD COLUMN is_baseline INTEGER NOT NULL DEFAULT 0");
        let a = sql::perform(&conn, alter.as_str(), &params)?;
        proof {
            reveal_strlit(" ADD COLUMN is_baseline INTEGER NOT NULL DEFAULT 0");
            reveal_strlit(" ADD COLUMN ");
            reveal_strlit("is_baseline");
            reveal_strlit(" ");
            reveal_strlit("INTEGER NOT NULL DEFAULT 0");
            assert(alter@ == add_column_sql(table@, "is_baseline"@, "INTEGER NOT NULL DEFAULT 0"@));
        }
        assert(a.handed() == (add_column_sql(table@, "is_baseline"@, "INTEGER NOT NULL DEFAULT 0"@), Seq::<Param>::empty()));
        let mark = if str_eq(table, "domains") {
            "UPDATE domains SET is_baseline = 1 WHERE is_baseline = 0"
        } else if str_eq(table, "ip_addresses") {
            "UPDATE ip_addresses SET is_baseline = 1 WHERE is_baseline = 0 AND source IN ('imported', 'manual')"
        } else if str_eq(table, "ports") {
            "UPDATE ports SET is_baseline = 1 WHERE is_baseline = 0 AND source IN ('imported', 'manual')"
        } else {
            "UPDATE urls SET is_baseline = 1 WHERE is_baseline = 0 AND source IN ('imported', 'manual')"
        };
        let m = sql::perform(&conn, mark, &params)?;
        assert(m.handed() == (mark_baseline_sql(table@), Seq::<Param>::empty()));
        Ok(())
    }
}

} // verus!
