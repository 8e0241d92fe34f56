//! The SQLite boundary: values that cross it, the calls into rusqlite, and
//! verified decoding of the rows that come back.

use vstd::prelude::*;

use rusqlite::types::Value;

use crate::error::WatcherError;

verus! {

/// A SQLite connection.
#[verifier::external_type_specification]
#[verifier::external_body]
pub struct ExConnection(rusqlite::Connection);

/// A value of a SQLite column or parameter, as rusqlite holds it.
#[verifier::external_type_specification]
#[verifier::external_body]
pub struct ExValue(rusqlite::types::Value);

/// An error reported by rusqlite.
#[verifier::external_type_specification]
#[verifier::external_body]
pub struct ExSqlError(rusqlite::Error);

/// A value bound to a statement parameter or read from a result column.
#[derive(Debug, Clone, PartialEq, Eq)]
pub enum SqlValue {
    Null,
    Integer(i64),
    Text(String),
    /// A floating-point or blob value, which no column of this schema holds.
    Unsupported,
}

/// A value as it is bound to a statement parameter: what SQLite receives.
pub enum Bound {
    Null,
    Integer(i64),
    Text(String),
}

/// `b` is how the parameter `v` is bound: an unsupported value goes over
/// as NULL, every other value as itself.
pub open spec fn binds(v: SqlValue, b: Bound) -> bool {
    match v {
        SqlValue::Integer(n) => b == Bound::Integer(n),
        SqlValue::Text(t) => b matches Bound::Text(u) && u@ == t@,
        _ => b is Null,
    }
}

/// Binds one parameter.
fn bound_value(v: &SqlValue) -> (b: Bound)
    ensures
        binds(*v, b),
{
    match v {
        SqlValue::Integer(n) => Bound::Integer(*n),
        SqlValue::Text(t) => Bound::Text(t.clone()),
        SqlValue::Null => Bound::Null,
        SqlValue::Unsupported => Bound::Null,
    }
}

/// The bound form of every parameter, in order.
fn bound_values(params: &[SqlValue]) -> (r: Vec<Bound>)
    ensures
        r@.len() == params@.len(),
        forall|i: int| 0 <= i < params@.len() ==> binds(params@[i], #[trigger] r@[i]),
{
    let mut r: Vec<Bound> = Vec::new();
    let mut i: usize = 0;
    while i < params.len()
        invariant
            i <= params@.len(),
            r@.len() == i,
            forall|k: int| 0 <= k < i ==> binds(params@[k], #[trigger] r@[k]),
        decreases params.len() - i,
    {
        r.push(bound_value(&params[i]));
        i = i + 1;
    }
    r
}

/// Opens (creating when absent) the SQLite database file at `path`.
///
/// Calls `rusqlite::Connection::open`; nothing is stated of the outcome,
/// which depends on the file system.
#[verifier::external_body]
pub(crate) fn open_connection(path: &str) -> (r: Result<rusqlite::Connection, rusqlite::Error>) {
    rusqlite::Connection::open(path)
}

/// Runs one or more SQL statements without parameters.
///
/// Calls `rusqlite::Connection::execute_batch`; nothing is stated of the
/// outcome, which depends on the database contents.
#[verifier::external_body]
pub(crate) fn execute_batch(conn: &rusqlite::Connection, sql: &str) -> (r: Result<(), rusqlite::Error>) {
    conn.execute_batch(sql)
}

/// Runs one SQL statement with positional parameters and returns the number
/// of rows it changed.
///
/// Calls `rusqlite::Connection::execute`; nothing is stated of the outcome,
/// which depends on the database contents.
#[verifier::external_body]
pub(crate) fn execute(conn: &rusqlite::Connection, sql: &str, params: &[Bound]) -> (r: Result<
    usize,
    rusqlite::Error,
>) {
    conn.execute(sql, rusqlite::params_from_iter(params.iter().map(value_of)))
}

/// The rusqlite value of a bound parameter, one for one.
#[verifier::external_body]
fn value_of(v: &Bound) -> (r: Value) {
    match v {
        Bound::Null => Value::Null,
        Bound::Integer(n) => Value::Integer(*n),
        Bound::Text(t) => Value::Text(t.clone()),
    }
}

/// The library value of a result column, one for one; floats and blobs
/// become `Unsupported`.
#[verifier::external_body]
fn cell_of(v: Value) -> (r: SqlValue) {
    match v {
        Value::Null => SqlValue::Null,
        Value::Integer(n) => SqlValue::Integer(n),
        Value::Text(t) => SqlValue::Text(t),
        Value::Real(_) | Value::Blob(_) => SqlValue::Unsupported,
    }
}

/// Runs one SQL query with positional parameters and returns every result
/// row as the list of its column values.
///
/// Calls `rusqlite::Statement::query_map`; nothing is stated of the rows,
/// which depend on the database contents.
#[verifier::external_body]
pub(crate) fn query_rows(conn: &rusqlite::Connection, sql: &str, params: &[Bound]) -> (r: Result<
    Vec<Vec<SqlValue>>,
    rusqlite::Error,
>) {
    let mut stmt = conn.prepare(sql)?;
    let width = stmt.column_count();
    let values = rusqlite::params_from_iter(params.iter().map(value_of));
    let rows = stmt.query_map(values, |row| (0..width).map(|i| row.get(i).map(cell_of)).collect())?;
    rows.collect()
}

/// The text of a rusqlite error, as its `Display` writes it.
#[verifier::external_body]
pub(crate) fn error_text(e: &rusqlite::Error) -> (s: String) {
    e.to_string()
}

/// A fresh random identifier (a version 4 UUID in its hyphenated form).
///
/// Calls `uuid::Uuid::new_v4`; the value is random, so nothing is stated.
#[verifier::external_body]
pub(crate) fn new_id() -> (s: String) {
    uuid::Uuid::new_v4().to_string()
}

/// The current UTC time in RFC 3339 form.
///
/// Calls `chrono::Utc::now`; the value depends on the clock, so nothing is
/// stated.
#[verifier::external_body]
pub(crate) fn now() -> (s: String) {
    chrono::Utc::now().to_rfc3339()
}

/// The value of a statement parameter or result column, as contracts see it.
pub enum Param {
    Null,
    Integer(i64),
    Text(Seq<char>),
    Unsupported,
}

impl View for SqlValue {
    type V = Param;

    open spec fn view(&self) -> Param {
        match self {
            SqlValue::Null => Param::Null,
            SqlValue::Integer(n) => Param::Integer(*n),
            SqlValue::Text(t) => Param::Text(t@),
            SqlValue::Unsupported => Param::Unsupported,
        }
    }
}

/// A statement as handed to SQLite: its text and its parameters.
pub open spec fn statement_of(sql: Seq<char>, params: Seq<SqlValue>) -> (Seq<char>, Seq<Param>) {
    (sql, params.map_values(|v: SqlValue| v@))
}

/// A connection to a database file, with the file's path kept as a ghost
/// record. Only [`connect`] makes one.
pub struct Link {
    conn: rusqlite::Connection,
    path: Ghost<Seq<char>>,
}

impl Link {
    /// The path of the database file the connection was opened on.
    pub closed spec fn db(self) -> Seq<char> {
        self.path@
    }

    /// The underlying rusqlite connection.
    pub fn connection(&self) -> &rusqlite::Connection {
        &self.conn
    }
}

/// Opens (creating when absent) the database file at `path` with
/// foreign-key enforcement switched on.
pub fn connect(path: &str) -> (r: Result<Link, WatcherError>)
    ensures
        r matches Ok(l) ==> l.db() == path@,
        r matches Err(e) ==> e is Database,
{
    let conn = match open_connection(path) {
        Ok(c) => c,
        Err(e) => return Err(from_sql_error(e)),
    };
    match execute_batch(&conn, "PRAGMA foreign_keys = ON;") {
        Ok(()) => {},
        Err(e) => return Err(from_sql_error(e)),
    }
    Ok(Link { conn, path: Ghost(path@) })
}

/// One exchange with SQLite: the database file and the statement handed
/// over (kept as ghost records), the rows that came back for a query, and
/// the number of rows a statement changed, and, for the `COMMIT` of a
/// transaction, the statements the transaction ran. Only [`ask`],
/// [`perform`] and [`perform_batch`] make one, each on a [`Link`], and
/// [`commit`] from the exchange of its `COMMIT`, so in verified code an
/// exchange stands for a statement handed over on that file's connection.
pub struct Exchange {
    rows: Vec<Vec<SqlValue>>,
    changed: usize,
    statement: Ghost<(Seq<char>, Seq<Param>)>,
    path: Ghost<Seq<char>>,
    closes: Ghost<Option<Seq<(Seq<char>, Seq<Param>)>>>,
}

impl Exchange {
    /// The path of the database file the statement was handed to.
    pub closed spec fn on(self) -> Seq<char> {
        self.path@
    }

    /// The statement that was handed over, with its parameters.
    pub closed spec fn handed(self) -> (Seq<char>, Seq<Param>) {
        self.statement@
    }

    /// For the `COMMIT` of a transaction, the statements the transaction
    /// ran, in the order they were handed over; nothing for any other
    /// exchange.
    pub closed spec fn closes(self) -> Option<Seq<(Seq<char>, Seq<Param>)>> {
        self.closes@
    }

    /// The rows that came back.
    pub closed spec fn reply(self) -> Seq<Vec<SqlValue>> {
        self.rows@
    }

    /// The number of rows the statement changed.
    pub closed spec fn count(self) -> usize {
        self.changed
    }

    /// The rows that came back.
    pub fn rows(&self) -> (r: &Vec<Vec<SqlValue>>)
        ensures
            r@ == self.reply(),
    {
        &self.rows
    }

    /// The number of rows the statement changed.
    pub fn changed(&self) -> (n: usize)
        ensures
            n == self.count(),
    {
        self.changed
    }
}

/// A statement with the parameter values it is bound to; `None` stands for a
/// fresh value (a random id or the current time) that the statement may
/// carry there.
pub type Template = (Seq<char>, Seq<Option<Param>>);

/// A statement as handed over fits a template: same text, and the same value
/// in every fixed slot.
pub open spec fn fits(h: (Seq<char>, Seq<Param>), t: Template) -> bool {
    &&& h.0 == t.0
    &&& h.1.len() == t.1.len()
    &&& forall|i: int| 0 <= i < t.1.len() && #[trigger] t.1[i] is Some ==> h.1[i] == t.1[i].unwrap()
}

/// A text slot.
pub open spec fn text_slot(t: Seq<char>) -> Option<Param> {
    Some(Param::Text(t))
}

/// A NULL-or-text slot.
pub open spec fn opt_slot(t: Option<Seq<char>>) -> Option<Param> {
    match t {
        Some(v) => Some(Param::Text(v)),
        None => Some(Param::Null),
    }
}

/// The view of an optional text.
pub open spec fn opt_str(v: Option<&str>) -> Option<Seq<char>> {
    match v {
        Some(t) => Some(t@),
        None => None,
    }
}

/// A reply's first row begins with the text `id`.
pub open spec fn first_text_is(rows: Seq<Vec<SqlValue>>, id: Seq<char>) -> bool {
    rows.len() > 0 && rows[0]@.len() > 0 && text_of(rows[0]@[0]) == Some(id)
}

/// A lookup was asked of the database file `db`, and its reply gave
/// `found`: the text of its first row's first column, or nothing for an
/// empty reply.
pub open spec fn looked_up(db: Seq<char>, sql: Seq<char>, params: Seq<Param>, found: Option<Seq<char>>) -> bool {
    exists|q: Exchange|
        q.on() == db && #[trigger] q.handed() == (sql, params) && match found {
            Some(id) => first_text_is(q.reply(), id),
            None => q.reply().len() == 0,
        }
}

/// Some statement fitting the template was handed to the database file
/// `db`.
pub open spec fn written(db: Seq<char>, t: Template) -> bool {
    exists|x: Exchange| x.on() == db && fits(#[trigger] x.handed(), t)
}

/// Some statement fitting the template was handed to the database file
/// `db` and changed `n` rows.
pub open spec fn changed_rows(db: Seq<char>, t: Template, n: nat) -> bool {
    exists|x: Exchange| x.on() == db && fits(#[trigger] x.handed(), t) && x.count() == n
}

/// A statement without parameters was handed to the database file `db`.
pub open spec fn ran(db: Seq<char>, sql: Seq<char>) -> bool {
    exists|x: Exchange| x.on() == db && #[trigger] x.handed() == (sql, Seq::<Param>::empty())
}

/// The statements a transaction ran, in the order they were handed over.
pub type Log = Seq<(Seq<char>, Seq<Param>)>;

/// A transaction on the database file `db` was committed after running
/// exactly the statements of `log`.
pub open spec fn committed(db: Seq<char>, log: Log) -> bool {
    exists|x: Exchange|
        x.on() == db && #[trigger] x.closes() == Some(log) && x.handed() == ("COMMIT"@, Seq::<Param>::empty())
}

/// The statements the exchanges handed over, in the order of the list.
pub open spec fn handed_all(tape: Seq<Exchange>) -> Log {
    tape.map_values(|x: Exchange| x.handed())
}

/// Listing one more exchange lists one more statement.
pub proof fn lemma_handed_push(tape: Seq<Exchange>, x: Exchange)
    ensures
        handed_all(tape.push(x)) == handed_all(tape).push(x.handed()),
{
    assert(handed_all(tape.push(x)) =~= handed_all(tape).push(x.handed()));
}

/// Every statement of the log is one of `texts`.
pub open spec fn only_among(log: Log, texts: Set<Seq<char>>) -> bool {
    forall|i: int| 0 <= i < log.len() ==> texts.contains(#[trigger] log[i].0)
}

/// On the database file `db`, a transaction was begun and then committed,
/// having run nothing but statements whose texts are among `texts` (so no
/// `ROLLBACK` came between).
pub open spec fn committed_among(db: Seq<char>, texts: Set<Seq<char>>) -> bool {
    ran(db, "BEGIN"@) && exists|log: Log| #[trigger] committed(db, log) && only_among(log, texts)
}

/// A transaction on a [`Link`]: `BEGIN` was handed over on it, and every
/// statement handed over through the transaction since is logged (as a
/// ghost record) until [`commit`] hands over `COMMIT`. The link is held
/// inside and not handed out, so nothing else runs on that connection
/// meanwhile.
pub struct Tx {
    link: Link,
    log: Ghost<Log>,
}

impl Tx {
    /// The path of the database file the transaction runs on.
    pub closed spec fn db(self) -> Seq<char> {
        self.link.db()
    }

    /// The statements run so far, in order.
    pub closed spec fn log(self) -> Log {
        self.log@
    }
}

/// Logging a statement whose text is among `texts` keeps every statement
/// of the log among them.
proof fn lemma_only_among_push(log: Log, h: (Seq<char>, Seq<Param>))
    ensures
        forall|texts: Set<Seq<char>>|
            only_among(log, texts) && texts.contains(h.0) ==> #[trigger] only_among(log.push(h), texts),
{
    assert forall|texts: Set<Seq<char>>| only_among(log, texts) && texts.contains(h.0) implies #[trigger] only_among(
        log.push(h),
        texts,
    ) by {
        assert forall|i: int| 0 <= i < log.push(h).len() implies texts.contains(#[trigger] log.push(h)[i].0) by {
            if i < log.len() {
                assert(log.push(h)[i] == log[i]);
            }
        }
    }
}

/// Begins a transaction on the link.
pub fn begin(link: Link) -> (r: Result<Tx, WatcherError>)
    ensures
        r matches Ok(tx) ==> tx.db() == link.db() && tx.log() == Seq::<(Seq<char>, Seq<Param>)>::empty() && ran(
            link.db(),
            "BEGIN"@,
        ),
        r matches Err(e) ==> e is Database,
{
    let x = perform_batch(&link, "BEGIN")?;
    assert(x.handed() == ("BEGIN"@, Seq::<Param>::empty()));
    Ok(Tx { link, log: Ghost(Seq::empty()) })
}

/// Runs a query inside the transaction and logs it.
pub fn tx_ask(tx: &mut Tx, sql: &str, params: &[SqlValue]) -> (r: Result<Exchange, WatcherError>)
    ensures
        final(tx).db() == old(tx).db(),
        final(tx).log() == old(tx).log().push(statement_of(sql@, params@)),
        forall|texts: Set<Seq<char>>|
            only_among(old(tx).log(), texts) && texts.contains(sql@) ==> #[trigger] only_among(final(tx).log(), texts),
        r matches Ok(x) ==> x.handed() == statement_of(sql@, params@) && x.count() == 0 && x.on() == old(tx).db(),
        r matches Err(e) ==> e is Database,
{
    let r = ask(&tx.link, sql, params);
    let ghost before = tx.log@;
    tx.log = Ghost(tx.log@.push(statement_of(sql@, params@)));
    proof {
        lemma_only_among_push(before, statement_of(sql@, params@));
    }
    r
}

/// Runs a statement inside the transaction and logs it.
pub fn tx_perform(tx: &mut Tx, sql: &str, params: &[SqlValue]) -> (r: Result<Exchange, WatcherError>)
    ensures
        final(tx).db() == old(tx).db(),
        final(tx).log() == old(tx).log().push(statement_of(sql@, params@)),
        forall|texts: Set<Seq<char>>|
            only_among(old(tx).log(), texts) && texts.contains(sql@) ==> #[trigger] only_among(final(tx).log(), texts),
        r matches Ok(x) ==> x.handed() == statement_of(sql@, params@) && x.reply().len() == 0 && x.on() == old(tx).db(),
        r matches Err(e) ==> e is Database,
{
    let r = perform(&tx.link, sql, params);
    let ghost before = tx.log@;
    tx.log = Ghost(tx.log@.push(statement_of(sql@, params@)));
    proof {
        lemma_only_among_push(before, statement_of(sql@, params@));
    }
    r
}

/// Commits the transaction; the exchange returned records what it ran.
pub fn commit(tx: Tx) -> (r: Result<Exchange, WatcherError>)
    ensures
        r matches Ok(x) ==> x.handed() == ("COMMIT"@, Seq::<Param>::empty()) && x.on() == tx.db() && x.closes() == Some(
            tx.log(),
        ),
        r matches Ok(_) ==> committed(tx.db(), tx.log()),
        r matches Err(e) ==> e is Database,
{
    let x = perform_batch(&tx.link, "COMMIT")?;
    let done = Exchange {
        rows: x.rows,
        changed: x.changed,
        statement: x.statement,
        path: x.path,
        closes: Ghost(Some(tx.log@)),
    };
    Ok(done)
}

/// Runs a query and keeps, beside the rows that came back, what was asked.
pub fn ask(conn: &Link, sql: &str, params: &[SqlValue]) -> (r: Result<
    Exchange,
    WatcherError,
>)
    ensures
        r matches Ok(x) ==> x.handed() == statement_of(sql@, params@) && x.count() == 0 && x.on() == conn.db(),
        r matches Err(e) ==> e is Database,
{
    let bound = bound_values(params);
    match query_rows(&conn.conn, sql, &bound) {
        Ok(rows) => Ok(
            Exchange {
                rows,
                changed: 0,
                statement: Ghost(statement_of(sql@, params@)),
                path: Ghost(conn.db()),
                closes: Ghost(None),
            },
        ),
        Err(e) => Err(from_sql_error(e)),
    }
}

/// Runs a statement and keeps, beside the number of rows it changed, what
/// was run.
pub fn perform(conn: &Link, sql: &str, params: &[SqlValue]) -> (r: Result<
    Exchange,
    WatcherError,
>)
    ensures
        r matches Ok(x) ==> x.handed() == statement_of(sql@, params@) && x.reply().len() == 0 && x.on() == conn.db(),
        r matches Err(e) ==> e is Database,
{
    let bound = bound_values(params);
    match execute(&conn.conn, sql, &bound) {
        Ok(n) => Ok(
            Exchange {
                rows: Vec::new(),
                changed: n,
                statement: Ghost(statement_of(sql@, params@)),
                path: Ghost(conn.db()),
                closes: Ghost(None),
            },
        ),
        Err(e) => Err(from_sql_error(e)),
    }
}

/// Runs a parameterless batch of statements and keeps what was run.
pub fn perform_batch(conn: &Link, sql: &str) -> (r: Result<Exchange, WatcherError>)
    ensures
        r matches Ok(x) ==> x.handed() == (sql@, Seq::<Param>::empty()) && x.reply().len() == 0
            && x.count() == 0 && x.on() == conn.db(),
        r matches Err(e) ==> e is Database,
{
    match execute_batch(&conn.conn, sql) {
        Ok(()) => Ok(
            Exchange {
                rows: Vec::new(),
                changed: 0,
                statement: Ghost((sql@, Seq::<Param>::empty())),
                path: Ghost(conn.db()),
                closes: Ghost(None),
            },
        ),
        Err(e) => Err(from_sql_error(e)),
    }
}

/// A copy of a value.
pub fn copy_value(v: &SqlValue) -> (r: SqlValue)
    ensures
        r == *v,
{
    match v {
        SqlValue::Null => SqlValue::Null,
        SqlValue::Integer(n) => SqlValue::Integer(*n),
        SqlValue::Text(t) => SqlValue::Text(t.clone()),
        SqlValue::Unsupported => SqlValue::Unsupported,
    }
}

/// Maps a rusqlite error into the library's error.
pub fn from_sql_error(e: rusqlite::Error) -> (r: WatcherError)
    ensures
        r == WatcherError::Database(e),
{
    WatcherError::Database(e)
}

/// The text a column value holds, when it holds text.
pub open spec fn text_of(v: SqlValue) -> Option<Seq<char>> {
    match v {
        SqlValue::Text(t) => Some(t@),
        _ => None,
    }
}

/// The integer a column value holds, when it holds one.
pub open spec fn int_of(v: SqlValue) -> Option<i64> {
    match v {
        SqlValue::Integer(n) => Some(n),
        _ => None,
    }
}

/// A column decodes as an optional text: NULL or text.
pub open spec fn opt_text_ok(v: SqlValue) -> bool {
    v is Null || v is Text
}

/// The optional text a NULL-or-text column value decodes to.
pub open spec fn opt_text_of(v: SqlValue) -> Option<Seq<char>> {
    match v {
        SqlValue::Text(t) => Some(t@),
        _ => None,
    }
}

/// The view of an optional string.
pub open spec fn opt_view(v: Option<String>) -> Option<Seq<char>> {
    match v {
        Some(s) => Some(s@),
        None => None,
    }
}

/// The error reported when a result column does not hold the expected type.
pub fn column_type_error() -> (e: WatcherError)
    ensures
        e is Decode,
{
    WatcherError::Decode
}

/// Reads a text column.
pub fn get_text(row: &[SqlValue], i: usize) -> (r: Result<String, WatcherError>)
    ensures
        match r {
            Ok(s) => i < row@.len() && text_of(row@[i as int]) == Some(s@),
            Err(e) => e is Decode && !(i < row@.len() && text_of(row@[i as int]) is Some),
        },
{
    if i < row.len() {
        match &row[i] {
            SqlValue::Text(t) => Ok(t.clone()),
            _ => Err(column_type_error()),
        }
    } else {
        Err(column_type_error())
    }
}

/// Reads a NULL-or-text column.
pub fn get_opt_text(row: &[SqlValue], i: usize) -> (r: Result<Option<String>, WatcherError>)
    ensures
        match r {
            Ok(s) => i < row@.len() && opt_text_ok(row@[i as int]) && opt_view(s) == opt_text_of(
                row@[i as int],
            ),
            Err(e) => e is Decode && !(i < row@.len() && opt_text_ok(row@[i as int])),
        },
{
    if i < row.len() {
        match &row[i] {
            SqlValue::Text(t) => Ok(Some(t.clone())),
            SqlValue::Null => Ok(None),
            _ => Err(column_type_error()),
        }
    } else {
        Err(column_type_error())
    }
}

/// Reads an integer column.
pub fn get_int(row: &[SqlValue], i: usize) -> (r: Result<i64, WatcherError>)
    ensures
        match r {
            Ok(n) => i < row@.len() && int_of(row@[i as int]) == Some(n),
            Err(e) => e is Decode && !(i < row@.len() && int_of(row@[i as int]) is Some),
        },
{
    if i < row.len() {
        match &row[i] {
            SqlValue::Integer(n) => Ok(*n),
            _ => Err(column_type_error()),
        }
    } else {
        Err(column_type_error())
    }
}

/// Reads a NULL-or-integer column.
pub fn get_opt_int(row: &[SqlValue], i: usize) -> (r: Result<Option<i64>, WatcherError>)
    ensures
        match r {
            Ok(n) => i < row@.len() && (row@[i as int] is Null || row@[i as int] is Integer) && n
                == int_of(row@[i as int]),
            Err(e) => e is Decode && !(i < row@.len() && (row@[i as int] is Null || row@[i as int] is Integer)),
        },
{
    if i < row.len() {
        match &row[i] {
            SqlValue::Integer(n) => Ok(Some(*n)),
            SqlValue::Null => Ok(None),
            _ => Err(column_type_error()),
        }
    } else {
        Err(column_type_error())
    }
}

/// A text parameter.
pub fn text_param(s: &str) -> (v: SqlValue)
    ensures
        text_of(v) == Some(s@),
{
    SqlValue::Text(String::from_str(s))
}

/// A NULL-or-text parameter.
pub fn opt_text(s: Option<&str>) -> (v: SqlValue)
    ensures
        match s {
            Some(t) => text_of(v) == Some(t@),
            None => v is Null,
        },
{
    match s {
        Some(t) => SqlValue::Text(String::from_str(t)),
        None => SqlValue::Null,
    }
}

/// An integer parameter.
pub fn integer(n: i64) -> (v: SqlValue)
    ensures
        v == SqlValue::Integer(n),
{
    SqlValue::Integer(n)
}

/// The first column of the first row, read as text, if there is a row.
pub fn first_text(rows: &[Vec<SqlValue>]) -> (r: Result<Option<String>, WatcherError>)
    ensures
        match r {
            Ok(Some(s)) => rows@.len() > 0 && text_of(rows@[0]@[0]) == Some(s@) && rows@[0]@.len()
                > 0,
            Ok(None) => rows@.len() == 0,
            Err(e) => rows@.len() > 0 && e is Decode,
        },
{
    if rows.len() == 0 {
        Ok(None)
    } else {
        let s = get_text(&rows[0], 0)?;
        Ok(Some(s))
    }
}

/// The first column of the first row, read as an integer; an absent row is
/// an error (as `query_row` reports it).
pub fn single_int(rows: &[Vec<SqlValue>]) -> (r: Result<i64, WatcherError>)
    ensures
        r matches Ok(n) ==> rows@.len() > 0 && rows@[0]@.len() > 0 && int_of(rows@[0]@[0])
            == Some(n),
        r matches Err(e) ==> e is Decode || e is NoRows,
{
    if rows.len() == 0 {
        Err(WatcherError::NoRows)
    } else {
        get_int(&rows[0], 0)
    }
}

} // verus!
