//! Default values of the configuration, and expanding `~` in paths.

use vstd::prelude::*;

use crate::db::sql::opt_view;
use crate::error::{self, WatcherError};
use crate::local_time;
use crate::paths::{path_joined, join_path, home_dir, config_dir};
use crate::text::{starts_with, chars_of, starts_with_chars, str_eq, sub_chars, string_of};

verus! {

/// Scan this many IPs at once by default.
pub fn default_scan_ip_concurrency() -> (n: usize)
    ensures
        n == 4,
{
    4
}

/// Probe this many ports of one IP at once by default.
pub fn default_scan_port_concurrency_per_ip() -> (n: usize)
    ensures
        n == 4,
{
    4
}

/// Show times in the default display timezone.
pub fn default_display_timezone() -> (s: String)
    ensures
        s@ == local_time::DEFAULT_TIMEZONE@,
{
    String::from_str(local_time::DEFAULT_TIMEZONE)
}

/// The database under the user's configuration directory.
pub fn default_database_path() -> (s: String)
    ensures
        s@ == "~/.config/watcher/watcher.db"@,
{
    String::from_str("~/.config/watcher/watcher.db")
}

/// Checks are on by default.
pub fn default_enabled() -> (b: bool)
    ensures
        b,
{
    true
}

/// URLs checked per batch by default.
pub fn default_poc_max_urls_per_batch() -> (n: usize)
    ensures
        n == 1000,
{
    1_000
}

/// Scripts fetched per URL by default.
pub fn default_poc_max_js_files_per_url() -> (n: usize)
    ensures
        n == 20,
{
    20
}

/// Map URLs requested per URL by default.
pub fn default_poc_max_map_candidates_per_url() -> (n: usize)
    ensures
        n == 20,
{
    20
}

/// nmap is found on the search path by default.
pub fn default_nmap_path() -> (s: String)
    ensures
        s@ == "nmap"@,
{
    String::from_str("nmap")
}

/// One nmap run may take this long by default, in milliseconds.
pub fn default_detailed_fingerprint_timeout_ms() -> (n: u64)
    ensures
        n == 30_000,
{
    30_000
}

/// This many nmap runs go at once by default.
pub fn default_detailed_fingerprint_concurrency() -> (n: usize)
    ensures
        n == 2,
{
    2
}

/// SMTP security is chosen from the port by default.
pub fn default_smtp_security() -> (s: String)
    ensures
        s@ == "auto"@,
{
    String::from_str("auto")
}

/// The configuration file in a configuration directory.
pub open spec fn config_file_in(dir: Seq<char>) -> Seq<char> {
    path_joined(path_joined(dir, "watcher"@), "watcher.yml"@)
}

/// `watcher/watcher.yml` under the user's configuration directory.
pub fn default_config_path() -> (r: Result<String, WatcherError>)
    ensures
        r matches Err(e) ==> e.is_invalid_with("failed to locate user config directory"@),
        r matches Ok(p) ==> exists|dir: Seq<char>| p@ == #[trigger] config_file_in(dir),
{
    match config_dir() {
        Some(dir) => Ok(config_file_in_dir(dir.as_str())),
        None => Err(error::invalid("failed to locate user config directory")),
    }
}

/// The configuration file in a configuration directory.
pub fn config_file_in_dir(dir: &str) -> (s: String)
    ensures
        s@ == config_file_in(dir@),
{
    let watcher = join_path(dir, "watcher");
    join_path(watcher.as_str(), "watcher.yml")
}

/// A path with a leading `~` (alone, or followed by `/`) replaced by the
/// home directory, or by `~` itself when there is none.
pub open spec fn tilde_expanded(path: Seq<char>, home: Option<Seq<char>>) -> Seq<char> {
    let base = match home {
        Some(h) => h,
        None => "~"@,
    };
    if path == "~"@ {
        base
    } else if starts_with(path, "~/"@) {
        path_joined(base, path.skip(2))
    } else {
        path
    }
}

/// Expands `~` with the given home directory.
pub fn expand_tilde_with_home(path: &str, home: Option<&str>) -> (s: String)
    ensures
        s@ == tilde_expanded(path@, match home {
            Some(h) => Some(h@),
            None => None,
        }),
{
    let base = match home {
        Some(h) => h,
        None => "~",
    };
    if str_eq(path, "~") {
        return String::from_str(base);
    }
    let v = chars_of(path);
    let prefix = chars_of("~/");
    if starts_with_chars(&v, &prefix) {
        proof {
            reveal_strlit("~/");
        }
        let rest = string_of(&sub_chars(&v, 2, v.len()));
        assert(rest@ =~= path@.skip(2));
        return join_path(base, rest.as_str());
    }
    String::from_str(path)
}

/// Expands `~` with the user's home directory.
pub fn expand_tilde(path: &str) -> (s: String)
    ensures
        exists|home: Option<Seq<char>>| s@ == #[trigger] tilde_expanded(path@, home),
        path@ != "~"@ && !starts_with(path@, "~/"@) ==> s@ == path@,
{
    let home = home_dir();
    let h = match &home {
        Some(h) => Some(h.as_str()),
        None => None,
    };
    let s = expand_tilde_with_home(path, h);
    assert(s@ == tilde_expanded(path@, match h {
        Some(x) => Some(x@),
        None => None,
    }));
    s
}

} // verus!
