//! The daemon's pid-file lifecycle: what a pid file says, whether the
//! process it names is the daemon, and when to start, clean up or give up
//! stopping. The process and file operations themselves are the caller's.

use vstd::prelude::*;

use crate::cli::args::{Commands, DaemonCommands};
use crate::error::{self, WatcherError};
use crate::text::{contains_seq, trim, trim_start, trim_end, unsigned_literal, chars_of, trim_chars, parse_unsigned, str_contains, string_of, decimal, decimal_string, is_ws, is_digit, lemma_decimal_digits, lemma_decimal_literal};

verus! {

/// What the pid file says about the daemon.
#[derive(Debug, Clone)]
pub enum DaemonStatus {
    NotRunning,
    Running { pid: u32 },
    Stale { pid: u32, reason: String },
}

/// A plain `daemon run` (not `--once`, not `--foreground`) outside the
/// daemon's own child process moves itself to the background.
pub fn should_background(command: &Commands, is_daemon_child: bool) -> (b: bool)
    ensures
        b <==> (*command matches Commands::Daemon(DaemonCommands::Run { once, foreground }) && once
            == false && foreground == false && !is_daemon_child),
{
    match command {
        Commands::Daemon(DaemonCommands::Run { once, foreground }) => !*once && !*foreground
            && !is_daemon_child,
        _ => false,
    }
}

/// The pid a pid file holds: its trimmed text as a `u32`.
pub open spec fn pid_of(content: Seq<char>) -> Option<u32> {
    match unsigned_literal(trim(content)) {
        Some(n) => if n <= u32::MAX {
            Some(n as u32)
        } else {
            None
        },
        None => None,
    }
}

/// Reads the pid a pid file holds; an error names the file when the text is
/// not a pid.
pub fn parse_pid(content: &str, pid_path: &str) -> (r: Result<u32, WatcherError>)
    ensures
        match pid_of(content@) {
            Some(p) => r == Ok::<u32, WatcherError>(p),
            None => r matches Err(e) && e.is_invalid_with("invalid pid file "@ + pid_path@),
        },
{
    let t = trim_chars(&chars_of(content));
    match parse_unsigned(&t, 0x1_0000_0000) {
        Some(n) => Ok(n as u32),
        None => Err(error::invalid2("invalid pid file ", pid_path)),
    }
}

/// What a pid file holds for a pid: the number and a line break.
pub fn pid_file_content(pid: u32) -> (s: String)
    ensures
        s@ == decimal(pid as nat) + "\n"@,
{
    decimal_string(pid as u64).concat("\n")
}

/// A pid file written for a pid reads back as that pid.
pub proof fn lemma_pid_file_roundtrip(pid: u32)
    ensures
        pid_of(decimal(pid as nat) + "\n"@) == Some(pid),
{
    let d = decimal(pid as nat);
    lemma_decimal_digits(pid as nat);
    lemma_decimal_literal(pid as nat);
    reveal_strlit("\n");
    let s = d + "\n"@;
    assert(s[0] == d[0]);
    assert(is_digit(d[0]));
    assert(!is_ws(s[0]));
    assert(trim_start(s) == s);
    assert(s.drop_last() =~= d);
    assert(is_ws(s.last()));
    assert(is_digit(d[d.len() - 1]));
    assert(!is_ws(d.last()));
    assert(trim_end(d) == d);
    assert(trim_end(s) == trim_end(d));
    assert(trim(s) == d);
}

/// A command line (arguments separated by NUL) that mentions `watcher`,
/// `daemon` and `run`.
pub open spec fn watcher_cmdline(cmdline: Seq<char>) -> bool {
    let text = cmdline.map_values(|c: char| if c == '\0' { ' ' } else { c });
    contains_seq(text, "watcher"@) && contains_seq(text, "daemon"@) && contains_seq(text, "run"@)
}

/// Whether a process command line is the daemon's.
pub fn looks_like_watcher_cmdline(cmdline: &str) -> (b: bool)
    ensures
        b == watcher_cmdline(cmdline@),
{
    let v = chars_of(cmdline);
    let mut spaced: Vec<char> = Vec::new();
    let mut i: usize = 0;
    while i < v.len()
        invariant
            i <= v@.len(),
            v@ == cmdline@,
            spaced@ == v@.take(i as int).map_values(|c: char| if c == '\0' { ' ' } else { c }),
        decreases v.len() - i,
    {
        let c = v[i];
        spaced.push(if c == '\0' { ' ' } else { c });
        assert(v@.take(i + 1).map_values(|c: char| if c == '\0' { ' ' } else { c }) =~= v@.take(
            i as int,
        ).map_values(|c: char| if c == '\0' { ' ' } else { c }).push(if c == '\0' { ' ' } else { c }));
        i = i + 1;
    }
    assert(v@.take(v@.len() as int) =~= v@);
    let text = string_of(&spaced);
    str_contains(text.as_str(), "watcher") && str_contains(text.as_str(), "daemon") && str_contains(
        text.as_str(),
        "run",
    )
}

/// The status the observations give: the pid the file holds (`None` when
/// there is no file), whether that process is alive, and its command line
/// (`None` when it cannot be read, which is taken as the daemon's).
pub open spec fn status_is(
    s: DaemonStatus,
    pid: Option<u32>,
    alive: bool,
    cmdline: Option<Seq<char>>,
) -> bool {
    match pid {
        None => s is NotRunning,
        Some(p) => if !alive {
            s matches DaemonStatus::Stale { pid: q, reason } && q == p && reason@
                == "process is not running"@
        } else if cmdline matches Some(c) && !watcher_cmdline(c) {
            s matches DaemonStatus::Stale { pid: q, reason } && q == p && reason@
                == "pid belongs to a different process"@
        } else {
            s == DaemonStatus::Running { pid: p }
        },
    }
}

/// Works out the daemon's status from what was observed.
pub fn status(pid: Option<u32>, alive: bool, cmdline: Option<&str>) -> (s: DaemonStatus)
    ensures
        status_is(s, pid, alive, match cmdline {
            Some(c) => Some(c@),
            None => None,
        }),
{
    match pid {
        None => DaemonStatus::NotRunning,
        Some(p) => {
            if !alive {
                return DaemonStatus::Stale { pid: p, reason: String::from_str("process is not running") };
            }
            let is_watcher = match cmdline {
                Some(c) => looks_like_watcher_cmdline(c),
                None => true,
            };
            if !is_watcher {
                return DaemonStatus::Stale {
                    pid: p,
                    reason: String::from_str("pid belongs to a different process"),
                };
            }
            DaemonStatus::Running { pid: p }
        },
    }
}

/// A stale pid file is removed before anything else.
pub fn cleanup_stale_pid(status: &DaemonStatus) -> (remove: bool)
    ensures
        remove <==> status is Stale,
{
    match status {
        DaemonStatus::Stale { .. } => true,
        _ => false,
    }
}

/// Once a stale pid file is removed (there is no pid file any more), the
/// status read next is never stale: it is "not running"; and a status that
/// is not stale leaves the file in place.
pub proof fn lemma_cleanup_leaves_no_stale(before: DaemonStatus, after: DaemonStatus, alive: bool, cmdline: Option<Seq<char>>)
    requires
        before is Stale,
        status_is(after, None, alive, cmdline),
    ensures
        after is NotRunning,
        !(after is Stale),
{
}

/// A new daemon may start unless one is running.
pub fn ensure_not_running(status: &DaemonStatus) -> (r: Result<(), WatcherError>)
    ensures
        match status {
            DaemonStatus::Running { pid } => r matches Err(e) && e.is_invalid_with(
                "watcher daemon is already running, pid="@ + decimal(*pid as nat),
            ),
            _ => r is Ok,
        },
{
    match status {
        DaemonStatus::Running { pid } => {
            let shown = decimal_string(*pid as u64);
            Err(error::invalid2("watcher daemon is already running, pid=", shown.as_str()))
        },
        _ => Ok(()),
    }
}

/// How many times a stop checks whether the daemon has gone, a quarter of
/// a second apart.
pub const STOP_POLLS: u32 = 40;

/// What a stop does after its `attempt`-th look (counting from zero) at a
/// daemon it signalled.
#[derive(Debug, Clone, Copy, PartialEq, Eq, Structural)]
pub enum StopStep {
    /// The daemon is gone: remove the pid file; it is not running.
    Gone,
    /// Still there: wait a quarter of a second and look again.
    Wait,
    /// Still there after every look: it is still running.
    GiveUp,
}

/// Decides the next step of a stop.
pub fn stop_step(attempt: u32, alive: bool) -> (s: StopStep)
    ensures
        !alive && attempt < STOP_POLLS ==> s == StopStep::Gone,
        alive && attempt + 1 < STOP_POLLS ==> s == StopStep::Wait,
        alive && attempt + 1 >= STOP_POLLS ==> s == StopStep::GiveUp,
        attempt >= STOP_POLLS ==> s == StopStep::GiveUp,
{
    if attempt >= STOP_POLLS {
        StopStep::GiveUp
    } else if !alive {
        StopStep::Gone
    } else if attempt + 1 < STOP_POLLS {
        StopStep::Wait
    } else {
        StopStep::GiveUp
    }
}

} // verus!
