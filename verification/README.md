# watcher

A long-running asset-monitoring toolkit: it keeps an inventory of business
systems (names, IPs, ports, URLs), scans it on a schedule (DNS, ports, quick
and nmap fingerprints, web path enumeration, a source-map exposure check),
records what changed as alerts, and mails a summary of each batch.

## Layout

- `src/` — the library, verified with Verus: command-line rules and actions,
  configuration, the SQLite storage layer, the spreadsheet and nmap parsers,
  the scan planning and web-enumeration state machine, the daemon's pid-file
  decisions, dashboard text and the mail summary. Calls into rusqlite, url,
  uuid, chrono, dirs and rand go through small trusted wrappers whose
  contracts are stated next to them (`db/sql.rs`, `urls.rs`, `paths.rs`,
  `local_time.rs`, `monitor/ports.rs`).
- `app/` — the program around it: argument parsing, the YAML configuration
  file, processes and the pid file, the network and nmap work of each stage,
  logging, SMTP, the terminal dashboard.
- `tests/` — tests of the library.

## Storage contracts

What SQLite holds depends on the disk, so no contract says what a query
returns or what a table contains afterwards. What the library hands to
SQLite, and what it makes of the reply, is stated instead.

- A connection is a `db::sql::Link`, opened by `db::sql::connect` on a path
  that it keeps as a ghost value; `Database::conn` opens one on the
  database's own path.
- Statements go through `db::sql::ask`, `db::sql::perform` and
  `db::sql::perform_batch`, which return an `Exchange`: a ghost record of
  the statement text, its parameters and the path of the database the link
  was opened on. Storage postconditions say that some exchange on
  `self.spec_path()` handed over a given statement; a reader's
  postcondition says its result is the decoding of the rows that came back
  for exactly the stated query. Fresh ids and timestamps appear as open
  slots in the statement templates (`db::sql::Template`).
- Such a postcondition quantifies over `Exchange` values. As logic it says
  nothing of the file; its meaning rests on the fields of `Exchange`,
  `Link` and `Tx` being private to `db::sql`, where an exchange is made
  only right after rusqlite accepted a statement (by the three functions
  above, and by `commit` below). It says the statement was handed to
  SQLite and accepted, not what SQLite then keeps.
- Transactions go through `db::sql::Tx`, which `db::sql::begin` makes by
  handing over `BEGIN` on a link it then keeps to itself. Statements run
  through the transaction (`tx_ask`, `tx_perform`) are appended, in the
  order they are handed over, to a ghost log, and `db::sql::commit` hands
  over `COMMIT` and returns an exchange that records that log
  (`db::sql::committed`). `Database::record_ip_scan` states that its
  committed transaction ran exactly the statements of its tape, in order;
  the importers state that theirs ran nothing but their own statements
  (`db::sql::committed_among`), so no `ROLLBACK` came between. Outside a
  transaction, an exchange does not record when it was made, and no
  contract states the order of separate statements.
- The command handlers of `cli::actions` state, through the same
  predicates, which statements each command handed over, and, where they
  print what came back (rows, records, counts of changed rows), that it
  comes from that reply.
- Nothing states that a call made no exchange: a refused spreadsheet fails
  before the database is opened, which the code shows and the contract of
  `import_excel` states only as its error.
