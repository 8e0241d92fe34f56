//! Small readers shared by the command handlers: ports given on the command
//! line, the values of an import file, and rows as printed lines.

use vstd::prelude::*;

use crate::error::{self, WatcherError};
use crate::search::{join_with, views, join_strings};
use crate::text::{trim, unsigned_literal, split_by, chars_of, parse_unsigned, sub_chars, trim_chars, string_of};

verus! {

/// The text of an optional string.
pub fn opt_str(o: &Option<String>) -> (r: Option<&str>)
    ensures
        match o {
            Some(s) => r matches Some(t) && t@ == s@,
            None => r is None,
        },
{
    match o {
        Some(s) => Some(s.as_str()),
        None => None,
    }
}

/// The port a command-line value names: a `u16` literal.
pub open spec fn cli_port(value: Seq<char>) -> Option<u16> {
    match unsigned_literal(value) {
        Some(n) => if n < 65536 {
            Some(n as u16)
        } else {
            None
        },
        None => None,
    }
}

/// Reads a port given on the command line.
pub fn parse_port(value: &str) -> (r: Result<u16, WatcherError>)
    ensures
        match cli_port(value@) {
            Some(p) => r == Ok::<u16, WatcherError>(p),
            None => r matches Err(e) && e.is_invalid_with("invalid port "@ + value@),
        },
{
    let v = chars_of(value);
    match parse_unsigned(&v, 65536) {
        Some(n) => Ok(n as u16),
        None => Err(error::invalid2("invalid port ", value)),
    }
}

/// The lines of `s` (cut at `\n`), trimmed, without the blank ones.
pub open spec fn nonblank_lines(s: Seq<char>) -> Seq<Seq<char>> {
    kept_pieces(split_by(s, line_break()))
}

/// The line separator test, as a function value.
pub open spec fn line_break() -> spec_fn(char) -> bool {
    |c: char| c == '\n'
}

/// The trimmed pieces that are not blank, in order.
pub open spec fn kept_pieces(pieces: Seq<Seq<char>>) -> Seq<Seq<char>>
    decreases pieces.len(),
{
    if pieces.len() == 0 {
        Seq::empty()
    } else {
        let prev = kept_pieces(pieces.drop_last());
        let t = trim(pieces.last());
        if t.len() > 0 {
            prev.push(t)
        } else {
            prev
        }
    }
}

/// The values of an import file: one per line, trimmed, blank lines left
/// out.
pub fn import_values(content: &str) -> (r: Vec<String>)
    ensures
        views(r@) == nonblank_lines(content@),
{
    let v = chars_of(content);
    let ghost sep = line_break();
    let mut out: Vec<String> = Vec::new();
    let mut start: usize = 0;
    let mut i: usize = 0;
    let ghost mut done: Seq<Seq<char>> = Seq::empty();
    assert(v@.take(0) =~= Seq::<char>::empty());
    assert(split_by(v@.take(0), sep) =~= seq![Seq::<char>::empty()]);
    while i < v.len()
        invariant
            start <= i <= v@.len(),
            v@ == content@,
            sep == line_break(),
            split_by(v@.take(i as int), sep) == done.push(v@.subrange(start as int, i as int)),
            views(out@) == kept_pieces(done),
        decreases v.len() - i,
    {
        let c = v[i];
        proof {
            assert(v@.take(i + 1).drop_last() =~= v@.take(i as int));
            assert(v@.take(i + 1).last() == c);
        }
        if c == '\n' {
            let ghost piece = v@.subrange(start as int, i as int);
            let t = trim_chars(&sub_chars(&v, start, i));
            let ghost before = views(out@);
            if t.len() > 0 {
                out.push(string_of(&t));
                assert(views(out@) =~= before.push(t@));
            }
            proof {
                assert(done.push(piece).drop_last() =~= done);
                done = done.push(piece);
                assert(v@.subrange(i + 1, i + 1) =~= Seq::<char>::empty());
            }
            start = i + 1;
        } else {
            proof {
                assert(v@.subrange(start as int, i + 1) =~= v@.subrange(start as int, i as int).push(c));
                let pieces = done.push(v@.subrange(start as int, i as int));
                assert(pieces.update(pieces.len() - 1, pieces.last().push(c)) =~= done.push(
                    v@.subrange(start as int, i + 1),
                ));
            }
        }
        i = i + 1;
    }
    assert(v@.take(v@.len() as int) =~= v@);
    let ghost piece = v@.subrange(start as int, v@.len() as int);
    let t = trim_chars(&sub_chars(&v, start, v.len()));
    let ghost before = views(out@);
    if t.len() > 0 {
        out.push(string_of(&t));
        assert(views(out@) =~= before.push(t@));
    }
    assert(done.push(piece).drop_last() =~= done);
    out
}

/// Each row as one printed line, cells separated by tabs.
pub fn row_lines(rows: &Vec<Vec<String>>) -> (lines: Vec<String>)
    ensures
        lines@.len() == rows@.len(),
        forall|k: int| 0 <= k < rows@.len() ==> (#[trigger] lines@[k])@ == join_with(views(rows@[k]@), "\t"@),
{
    let mut lines: Vec<String> = Vec::new();
    let mut i: usize = 0;
    while i < rows.len()
        invariant
            i <= rows@.len(),
            lines@.len() == i,
            forall|k: int| 0 <= k < i ==> (#[trigger] lines@[k])@ == join_with(views(rows@[k]@), "\t"@),
        decreases rows.len() - i,
    {
        lines.push(join_strings(&rows[i], "\t"));
        i = i + 1;
    }
    lines
}

} // verus!
