//! File-system path arithmetic done by `std::path`, and the user
//! directories that the `dirs` crate finds.
//!
//! `Path::parent` works on path components (separators, `.` components,
//! roots); what it returns is given a name here. Joining a path is a few
//! lines on Unix and is written here. The user directories depend on the
//! environment, so nothing is stated of them.

use vstd::prelude::*;

use crate::db::sql::opt_view;
use crate::text::{chars_of, string_of};

verus! {

/// `Path::parent` of `path`: the path without its last component, or
/// `None` for a root or an empty path.
pub uninterp spec fn path_parent(path: Seq<char>) -> Option<Seq<char>>;

/// `more` joined onto `base` as `Path::join` does it on Unix: an absolute
/// `more` (one that starts with `/`) replaces `base`; otherwise `more` is
/// appended, after a `/` unless `base` is empty or already ends in one.
pub open spec fn path_joined(base: Seq<char>, more: Seq<char>) -> Seq<char> {
    if more.len() > 0 && more[0] == '/' {
        more
    } else if base.len() == 0 || base.last() == '/' {
        base + more
    } else {
        base + seq!['/'] + more
    }
}

/// Calls `std::path::Path::parent` on `path`. The result is named, not
/// described.
#[verifier::external_body]
pub(crate) fn parent_of(path: &str) -> (r: Option<String>)
    ensures
        opt_view(r) == path_parent(path@),
{
    match std::path::Path::new(path).parent() {
        Some(p) => Some(p.to_string_lossy().into_owned()),
        None => None,
    }
}

/// Joins `more` onto `base` (see [`path_joined`]).
pub(crate) fn join_path(base: &str, more: &str) -> (r: String)
    ensures
        r@ == path_joined(base@, more@),
{
    let b = chars_of(base);
    let m = chars_of(more);
    if m.len() > 0 && m[0] == '/' {
        return string_of(&m);
    }
    let mut out = b.clone();
    if b.len() > 0 && b[b.len() - 1] != '/' {
        out.push('/');
    }
    let mut i: usize = 0;
    while i < m.len()
        invariant
            i <= m@.len(),
            m@ == more@,
            b@ == base@,
            !(m@.len() > 0 && m@[0] == '/'),
            out@ == (if b@.len() == 0 || b@.last() == '/' { b@ } else { b@ + seq!['/'] }) + m@.take(i as int),
        decreases m.len() - i,
    {
        out.push(m[i]);
        assert(m@.take(i + 1) =~= m@.take(i as int).push(m@[i as int]));
        i = i + 1;
    }
    assert(m@.take(m@.len() as int) =~= m@);
    string_of(&out)
}

/// Calls `dirs::home_dir`: the user's home directory, found in the
/// environment, so nothing is stated of it.
#[verifier::external_body]
pub(crate) fn home_dir() -> (r: Option<String>) {
    match dirs::home_dir() {
        Some(p) => Some(p.to_string_lossy().into_owned()),
        None => None,
    }
}

/// Calls `dirs::config_dir`: the user's configuration directory, found in
/// the environment, so nothing is stated of it.
#[verifier::external_body]
pub(crate) fn config_dir() -> (r: Option<String>) {
    match dirs::config_dir() {
        Some(p) => Some(p.to_string_lossy().into_owned()),
        None => None,
    }
}

} // verus!
