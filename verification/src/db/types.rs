//! The database handle and the public import and pending-work types.

use vstd::prelude::*;

use crate::error::WatcherError;

use super::sql::{self, Link};

verus! {

/// A handle on the watcher SQLite database file.
///
/// Every operation opens its own connection, so the handle is cheap to clone
/// and share between tasks.
#[derive(Debug)]
pub struct Database {
    path: String,
}

impl Clone for Database {
    /// Another handle on the same database file.
    fn clone(&self) -> (c: Self)
        ensures
            c.spec_path() == self.spec_path(),
    {
        Database { path: self.path.clone() }
    }
}

/// One spreadsheet row of a baseline import.
#[derive(Debug, Clone)]
pub struct BaselineImportRow {
    pub system: String,
    pub name: Option<String>,
    pub bind_ip: Option<String>,
    pub ip: Option<String>,
    pub ports: Vec<u16>,
    pub url: Option<String>,
}

/// How many systems, names, IPs, ports and URLs a baseline import wrote.
#[derive(Debug, Clone, Copy, PartialEq, Eq)]
pub struct BaselineImportSummary {
    pub systems: usize,
    pub names: usize,
    pub ips: usize,
    pub ports: usize,
    pub urls: usize,
}

impl Default for BaselineImportSummary {
    fn default() -> (s: Self)
        ensures
            s.systems == 0 && s.names == 0 && s.ips == 0 && s.ports == 0 && s.urls == 0,
    {
        BaselineImportSummary { systems: 0, names: 0, ips: 0, ports: 0, urls: 0 }
    }
}

/// A unit of deferred work taken from the pending-work queue.
#[derive(Debug, Clone, PartialEq, Eq)]
pub struct PendingWorkItem {
    pub id: String,
    pub system_id: String,
    pub target: String,
}

impl Database {
    /// The path of the database file.
    pub closed spec fn spec_path(&self) -> Seq<char> {
        self.path@
    }

    /// A handle on the database file at `path`. The caller creates the
    /// parent directory; the file itself is created on first use.
    pub fn open(path: &str) -> (db: Result<Self, WatcherError>)
        ensures
            db matches Ok(d) && d.spec_path() == path@,
    {
        Ok(Database { path: String::from_str(path) })
    }

    /// The path of the database file.
    pub fn path(&self) -> (p: &str)
        ensures
            p@ == self.spec_path(),
    {
        self.path.as_str()
    }

    /// Opens a connection to the database file, with foreign-key
    /// enforcement switched on.
    pub fn conn(&self) -> (r: Result<Link, WatcherError>)
        ensures
            r matches Ok(l) ==> l.db() == self.spec_path(),
            r matches Err(e) ==> e is Database,
    {
        sql::connect(self.path.as_str())
    }
}

} // verus!
