//! Baseline assets from the first worksheet of a spreadsheet.
//!
//! The worksheet arrives as its grid of cell texts, row by row. The first
//! row is the header: `system` is required, `servername`,
//! `servername_bind_ip`, `real_ip`, `port` and `url` are read when present,
//! anything else (such as `id`) is ignored.

use vstd::prelude::*;

use crate::db::import::import_summary;
use crate::db::sql::opt_view;
use crate::db::{BaselineImportRow, BaselineImportSummary, Database};
use crate::error::{self, WatcherError};
use crate::search::views;
use crate::text::{
    trim, ascii_lower, all_digits, digits_value, is_digit, unsigned_literal, split_by, chars_of,
    trim_chars, lower_chars, string_of, parse_unsigned, sub_chars, chars_eq_str, digit_of,
    lemma_digits_value_push,
};

verus! {

/// Import counters returned after a spreadsheet import.
pub type ImportSummary = BaselineImportSummary;

/// The part of `s` before its first `.`, and what follows that `.` (or
/// `None` when there is no `.`).
pub open spec fn split_point(s: Seq<char>) -> (Seq<char>, Option<Seq<char>>)
    decreases s.len(),
{
    if s.len() == 0 {
        (s, None)
    } else if s[0] == '.' {
        (Seq::empty(), Some(s.skip(1)))
    } else {
        let rest = split_point(s.skip(1));
        (seq![s[0]] + rest.0, rest.1)
    }
}

/// Every character of `s` is `0`.
pub open spec fn all_zeros(s: Seq<char>) -> bool {
    forall|i: int| 0 <= i < s.len() ==> s[i] == '0'
}

/// The whole number a decimal like `443`, `443.`, `443.00` or `.0`
/// (optionally signed) denotes, when it denotes one; a negative sign is
/// allowed only on zero.
pub open spec fn whole_decimal(s: Seq<char>) -> Option<int> {
    let neg = s.len() > 0 && s[0] == '-';
    let body = if s.len() > 0 && (s[0] == '+' || s[0] == '-') {
        s.skip(1)
    } else {
        s
    };
    let (whole, frac) = split_point(body);
    let fraction = match frac {
        Some(f) => f,
        None => Seq::empty(),
    };
    if all_digits(whole) && all_digits(fraction) && whole.len() + fraction.len() > 0 && all_zeros(
        fraction,
    ) {
        let v = digits_value(whole) as int;
        if neg {
            if v == 0 {
                Some(0)
            } else {
                Some(-v)
            }
        } else {
            Some(v)
        }
    } else {
        None
    }
}

/// The port a spreadsheet cell token denotes: an integer literal, or a
/// whole decimal (spreadsheets store numbers as `443.0`), in `0..=65535`.
pub open spec fn excel_port(s: Seq<char>) -> Option<u16> {
    match unsigned_literal(s) {
        Some(n) => if n < 65536 {
            Some(n as u16)
        } else {
            excel_port_decimal(s)
        },
        None => excel_port_decimal(s),
    }
}

/// The decimal reading of a port token.
pub open spec fn excel_port_decimal(s: Seq<char>) -> Option<u16> {
    match whole_decimal(s) {
        Some(v) => if 0 <= v <= 65535 {
            Some(v as u16)
        } else {
            None
        },
        None => None,
    }
}

/// The error text for a token that is not a port.
pub open spec fn invalid_port_text(token: Seq<char>) -> Seq<char> {
    "invalid port `"@ + token + "`"@
}

/// Separators of a port cell: `,`, `;`, `/` and space.
pub open spec fn is_port_separator(c: char) -> bool {
    c == ',' || c == ';' || c == '/' || c == ' '
}

/// The ports of the pieces of a cell, read left to right; the first piece
/// that is not a port stops the reading and is reported.
pub open spec fn ports_of_pieces(pieces: Seq<Seq<char>>) -> Result<Seq<u16>, Seq<char>>
    decreases pieces.len(),
{
    if pieces.len() == 0 {
        Ok(Seq::empty())
    } else {
        match ports_of_pieces(pieces.drop_last()) {
            Err(t) => Err(t),
            Ok(v) => {
                let t = trim(pieces.last());
                if t.len() == 0 {
                    Ok(v)
                } else {
                    match excel_port(t) {
                        Some(p) => Ok(v.push(p)),
                        None => Err(t),
                    }
                }
            },
        }
    }
}

/// The separator test of port cells, as a function value.
pub open spec fn port_separator() -> spec_fn(char) -> bool {
    |c: char| is_port_separator(c)
}

/// The ports of a cell.
pub open spec fn cell_ports(s: Seq<char>) -> Result<Seq<u16>, Seq<char>> {
    ports_of_pieces(split_by(s, port_separator()))
}

/// Splitting never gives an empty list of pieces.
proof fn lemma_split_nonempty(s: Seq<char>, sep: spec_fn(char) -> bool)
    ensures
        split_by(s, sep).len() >= 1,
    decreases s.len(),
{
    if s.len() > 0 {
        lemma_split_nonempty(s.drop_last(), sep);
    }
}

/// The finished pieces of a prefix are the first pieces of the whole.
proof fn lemma_split_prefix(s: Seq<char>, sep: spec_fn(char) -> bool, j: int)
    requires
        0 <= j <= s.len(),
    ensures
        split_by(s.take(j), sep).len() <= split_by(s, sep).len(),
        split_by(s, sep).take(split_by(s.take(j), sep).len() - 1) == split_by(s.take(j), sep).drop_last(),
    decreases s.len(),
{
    lemma_split_nonempty(s.take(j), sep);
    if j == s.len() {
        assert(s.take(j) =~= s);
    } else {
        let t = s.drop_last();
        assert(s.take(j) =~= t.take(j));
        lemma_split_prefix(t, sep, j);
        lemma_split_nonempty(t, sep);
        let prev = split_by(t, sep);
        let whole = split_by(s, sep);
        assert(s.drop_last() == t);
        let k = split_by(t.take(j), sep).len() - 1;
        assert(whole.take(k) =~= prev.take(k));
    }
}

/// Computes [`split_point`]: the index of the first `.`, or the length.
fn point_index(v: &[char], from: usize) -> (r: usize)
    requires
        from <= v@.len(),
    ensures
        from <= r <= v@.len(),
        forall|k: int| from <= k < r ==> v@[k] != '.',
        r < v@.len() ==> v@[r as int] == '.',
{
    let mut i = from;
    while i < v.len() && v[i] != '.'
        invariant
            from <= i <= v@.len(),
            forall|k: int| from <= k < i ==> v@[k] != '.',
        decreases v.len() - i,
    {
        i = i + 1;
    }
    i
}

/// `split_point` cuts at the first `.`.
proof fn lemma_split_point(s: Seq<char>, r: int)
    requires
        0 <= r <= s.len(),
        forall|k: int| 0 <= k < r ==> s[k] != '.',
        r < s.len() ==> s[r] == '.',
    ensures
        split_point(s).0 == s.take(r),
        split_point(s).1 == if r < s.len() {
            Some(s.skip(r + 1))
        } else {
            None::<Seq<char>>
        },
    decreases r,
{
    if s.len() == 0 {
    } else if r == 0 {
        assert(s.take(0) =~= Seq::<char>::empty());
    } else {
        lemma_split_point(s.skip(1), r - 1);
        assert(s.take(r) =~= seq![s[0]] + s.skip(1).take(r - 1));
        if r < s.len() {
            assert(s.skip(1).skip(r) =~= s.skip(r + 1));
        }
    }
}

/// Reads the digits of `v[a..b]`; `None` when one is not a digit or the
/// value passes `bound`.
fn digits_in(v: &[char], a: usize, b: usize, bound: u64) -> (r: Option<u64>)
    requires
        a <= b <= v@.len(),
        0 < bound <= 0x1_0000_0000,
    ensures
        match r {
            Some(n) => all_digits(v@.subrange(a as int, b as int)) && n as int == digits_value(
                v@.subrange(a as int, b as int),
            ) && n < bound,
            None => !all_digits(v@.subrange(a as int, b as int)) || digits_value(
                v@.subrange(a as int, b as int),
            ) >= bound,
        },
{
    let mut value: u64 = 0;
    let mut i = a;
    assert(v@.subrange(a as int, a as int) =~= Seq::<char>::empty());
    while i < b
        invariant
            a <= i <= b <= v@.len(),
            0 < bound <= 0x1_0000_0000,
            all_digits(v@.subrange(a as int, i as int)),
            value as int == digits_value(v@.subrange(a as int, i as int)),
            value < bound,
        decreases b - i,
    {
        let c = v[i];
        if !('0' <= c && c <= '9') {
            assert(v@.subrange(a as int, b as int)[i - a] == c);
            return None;
        }
        let d = digit_of(c);
        proof {
            let p = v@.subrange(a as int, i as int);
            assert(v@.subrange(a as int, i + 1) =~= p.push(c));
            lemma_digits_value_push(p, c);
        }
        let next = value * 10 + d as u64;
        if next >= bound {
            proof {
                let full = v@.subrange(a as int, b as int);
                if all_digits(full) {
                    crate::text::lemma_digits_prefix_bound(full, (i + 1 - a) as int);
                    assert(full.take(i + 1 - a) =~= v@.subrange(a as int, i + 1));
                }
            }
            return None;
        }
        value = next;
        i = i + 1;
    }
    Some(value)
}

/// Whether `v[a..b]` is all `0`.
fn zeros_in(v: &[char], a: usize, b: usize) -> (r: bool)
    requires
        a <= b <= v@.len(),
    ensures
        r == all_zeros(v@.subrange(a as int, b as int)),
{
    let mut i = a;
    while i < b
        invariant
            a <= i <= b <= v@.len(),
            forall|k: int| a <= k < i ==> v@[k] == '0',
        decreases b - i,
    {
        if v[i] != '0' {
            assert(v@.subrange(a as int, b as int)[i - a] != '0');
            return false;
        }
        i = i + 1;
    }
    true
}

/// Reads a port token: an integer literal, or a whole decimal such as
/// `443.0`.
pub fn parse_port(value: &str) -> (r: Result<u16, WatcherError>)
    ensures
        match excel_port(value@) {
            Some(p) => r == Ok::<u16, WatcherError>(p),
            None => r matches Err(e) && e.is_invalid_with(invalid_port_text(value@)),
        },
{
    let v = chars_of(value);
    match parse_unsigned(&v, 65536) {
        Some(n) => {
            return Ok(n as u16);
        },
        None => {},
    }
    let neg = v.len() > 0 && v[0] == '-';
    let start: usize = if v.len() > 0 && (v[0] == '+' || v[0] == '-') {
        1
    } else {
        0
    };
    let ghost body = if v@.len() > 0 && (v@[0] == '+' || v@[0] == '-') {
        v@.skip(1)
    } else {
        v@
    };
    assert(body =~= v@.skip(start as int));
    let point = point_index(&v, start);
    proof {
        lemma_split_point(body, point - start);
        assert(body.take(point - start) =~= v@.subrange(start as int, point as int));
        if point < v@.len() {
            assert(body.skip(point - start + 1) =~= v@.subrange(point + 1, v@.len() as int));
        }
    }
    let frac_start = if point < v.len() {
        point + 1
    } else {
        v.len()
    };
    assert(frac_start == v@.len() ==> v@.subrange(frac_start as int, v@.len() as int) =~= Seq::<
        char,
    >::empty());
    let whole = digits_in(&v, start, point, 65536);
    let frac_ok = zeros_in(&v, frac_start, v.len());
    let has_digits = point - start > 0 || v.len() - frac_start > 0;
    let ok_value: Option<u16> = match whole {
        Some(n) => {
            if frac_ok && has_digits && (!neg || n == 0) {
                Some(n as u16)
            } else {
                None
            }
        },
        None => None,
    };
    proof {
        let f = v@.subrange(frac_start as int, v@.len() as int);
        if all_zeros(f) {
            assert(all_digits(f));
        }
    }
    match ok_value {
        Some(p) => Ok(p),
        None => Err(error::invalid3("invalid port `", value, "`")),
    }
}

/// Whether every character of `v` from `from` on is a digit.
fn all_digit_chars(v: &[char], from: usize) -> (r: bool)
    requires
        from <= v@.len(),
    ensures
        r == all_digits(v@.subrange(from as int, v@.len() as int)),
{
    let mut i = from;
    while i < v.len()
        invariant
            from <= i <= v@.len(),
            forall|k: int| from <= k < i ==> is_digit(v@[k]),
        decreases v.len() - i,
    {
        if !('0' <= v[i] && v[i] <= '9') {
            assert(!is_digit(v@.subrange(from as int, v@.len() as int)[i - from]));
            return false;
        }
        i = i + 1;
    }
    true
}

/// Reads the ports of a cell separated by `,`, `;`, `/` or spaces, in
/// order; the first token that is not a port is reported.
pub fn parse_ports(value: &str) -> (r: Result<Vec<u16>, WatcherError>)
    ensures
        match cell_ports(value@) {
            Ok(ports) => r matches Ok(v) && v@ == ports,
            Err(t) => r matches Err(e) && e.is_invalid_with(invalid_port_text(t)),
        },
{
    let v = chars_of(value);
    let ghost sep = port_separator();
    let mut ports: Vec<u16> = Vec::new();
    let mut piece_start: usize = 0;
    let mut i: usize = 0;
    let ghost mut done: Seq<Seq<char>> = Seq::empty();
    assert(v@.take(0) =~= Seq::<char>::empty());
    assert(split_by(v@.take(0), sep) =~= seq![Seq::<char>::empty()]);
    while i < v.len()
        invariant
            piece_start <= i <= v@.len(),
            v@ == value@,
            sep == port_separator(),
            split_by(v@.take(i as int), sep) == done.push(v@.subrange(piece_start as int, i as int)),
            ports_of_pieces(done) == Ok::<Seq<u16>, Seq<char>>(ports@),
        decreases v.len() - i,
    {
        let c = v[i];
        proof {
            assert(v@.take(i + 1).drop_last() =~= v@.take(i as int));
            assert(v@.take(i + 1).last() == c);
        }
        if c == ',' || c == ';' || c == '/' || c == ' ' {
            let raw = sub_chars(&v, piece_start, i);
            let token = trim_chars(&raw);
            let ghost piece = v@.subrange(piece_start as int, i as int);
            proof {
                assert(done.push(piece).drop_last() =~= done);
                assert(done.push(piece).last() == piece);
            }
            if token.len() > 0 {
                let text = string_of(&token);
                match parse_port(text.as_str()) {
                    Ok(p) => {
                        ports.push(p);
                    },
                    Err(e) => {
                        proof {
                            assert(split_by(v@.take(i + 1), sep) == done.push(piece).push(Seq::<char>::empty()));
                            lemma_split_prefix(v@, sep, i + 1);
                            assert(done.push(piece).push(Seq::<char>::empty()).drop_last() =~= done.push(piece));
                            lemma_pieces_prefix_error(split_by(value@, sep), done.push(piece), token@);
                        }
                        return Err(e);
                    },
                }
            }
            proof {
                done = done.push(piece);
                assert(v@.subrange(i + 1, i + 1) =~= Seq::<char>::empty());
                assert(done.push(v@.subrange(i + 1, i + 1)) =~= done.push(Seq::<char>::empty()));
            }
            piece_start = i + 1;
        } else {
            proof {
                assert(v@.subrange(piece_start as int, i + 1) =~= v@.subrange(piece_start as int, i as int).push(c));
                let pieces = done.push(v@.subrange(piece_start as int, i as int));
                assert(pieces.update(pieces.len() - 1, pieces.last().push(c)) =~= done.push(
                    v@.subrange(piece_start as int, i + 1),
                ));
            }
        }
        i = i + 1;
    }
    assert(v@.take(v@.len() as int) =~= v@);
    let raw = sub_chars(&v, piece_start, v.len());
    let token = trim_chars(&raw);
    let ghost piece = v@.subrange(piece_start as int, v@.len() as int);
    proof {
        assert(done.push(piece).drop_last() =~= done);
        assert(done.push(piece).last() == piece);
    }
    if token.len() > 0 {
        let text = string_of(&token);
        let p = parse_port(text.as_str())?;
        ports.push(p);
    }
    Ok(ports)
}

/// When the pieces read so far stop at a token, all the pieces do.
proof fn lemma_pieces_prefix_error(all: Seq<Seq<char>>, prefix: Seq<Seq<char>>, t: Seq<char>)
    requires
        ports_of_pieces(prefix) == Err::<Seq<u16>, Seq<char>>(t),
        prefix.len() <= all.len(),
        all.take(prefix.len() as int) == prefix,
    ensures
        ports_of_pieces(all) == Err::<Seq<u16>, Seq<char>>(t),
    decreases all.len() - prefix.len(),
{
    if all.len() > prefix.len() {
        let longer = all.take(prefix.len() + 1 as int);
        assert(longer.drop_last() =~= prefix);
        assert(all.take(longer.len() as int) =~= longer);
        lemma_pieces_prefix_error(all, longer, t);
    } else {
        assert(all.take(prefix.len() as int) =~= all);
    }
}

/// The lookup key of a header cell: trimmed and in ASCII lower case.
pub open spec fn header_key(cell: Seq<char>) -> Seq<char> {
    ascii_lower(trim(cell))
}

/// The column whose header is `name`: the last one, as a map built from
/// the header row in order keeps it.
pub open spec fn column_of(keys: Seq<Seq<char>>, name: Seq<char>) -> Option<int>
    decreases keys.len(),
{
    if keys.len() == 0 {
        None
    } else if keys.last() == name {
        Some(keys.len() - 1)
    } else {
        column_of(keys.drop_last(), name)
    }
}

/// The trimmed text of the cell under `name`, empty when there is no such
/// column or the row is short.
pub open spec fn cell_text(row: Seq<Seq<char>>, keys: Seq<Seq<char>>, name: Seq<char>) -> Seq<char> {
    match column_of(keys, name) {
        Some(k) => if k < row.len() {
            trim(row[k])
        } else {
            Seq::empty()
        },
        None => Seq::empty(),
    }
}

/// The lookup keys of a header row.
pub fn header_indexes(header: &Vec<String>) -> (keys: Vec<String>)
    ensures
        keys@.len() == header@.len(),
        forall|k: int| 0 <= k < header@.len() ==> (#[trigger] keys@[k])@ == header_key(header@[k]@),
{
    let mut keys: Vec<String> = Vec::new();
    let mut i: usize = 0;
    while i < header.len()
        invariant
            i <= header@.len(),
            keys@.len() == i,
            forall|k: int| 0 <= k < i ==> (#[trigger] keys@[k])@ == header_key(header@[k]@),
        decreases header.len() - i,
    {
        let t = trim_chars(&chars_of(header[i].as_str()));
        keys.push(string_of(&lower_chars(&t)));
        i = i + 1;
    }
    keys
}

/// The lookup keys of a header row.
pub open spec fn sheet_keys(header: Seq<String>) -> Seq<Seq<char>> {
    header.map_values(|c: String| header_key(c@))
}

/// Finds [`column_of`].
fn find_column(keys: &Vec<String>, name: &str) -> (r: Option<usize>)
    ensures
        match r {
            Some(k) => column_of(views(keys@), name@) == Some(k as int) && k < keys@.len(),
            None => column_of(views(keys@), name@) is None,
        },
{
    let mut i = keys.len();
    assert(views(keys@).take(i as int) =~= views(keys@));
    while i > 0
        invariant
            i <= keys@.len(),
            column_of(views(keys@), name@) == column_of(views(keys@).take(i as int), name@),
        decreases i,
    {
        let ghost t = views(keys@).take(i as int);
        assert(t.drop_last() =~= views(keys@).take(i - 1));
        assert(t.last() == keys@[i - 1]@);
        if crate::text::str_eq(keys[i - 1].as_str(), name) {
            return Some(i - 1);
        }
        i = i - 1;
    }
    None
}

/// The trimmed text of the cell under the header `name`.
pub fn cell(row: &Vec<String>, keys: &Vec<String>, name: &str) -> (r: String)
    ensures
        r@ == cell_text(views(row@), views(keys@), name@),
{
    match find_column(keys, name) {
        Some(k) => {
            if k < row.len() {
                let t = trim_chars(&chars_of(row[k].as_str()));
                string_of(&t)
            } else {
                String::new()
            }
        },
        None => String::new(),
    }
}

/// `Some` of a text unless it is empty.
pub open spec fn present(t: Seq<char>) -> Option<Seq<char>> {
    if t.len() > 0 {
        Some(t)
    } else {
        None
    }
}

/// `Some` of a string unless it is empty.
fn nonempty(s: String) -> (r: Option<String>)
    ensures
        opt_view(r) == present(s@),
{
    if s.as_str().unicode_len() > 0 {
        Some(s)
    } else {
        None
    }
}

/// The import row a worksheet row gives, when its system cell is not empty
/// and its port cell reads.
pub open spec fn sheet_row_is(r: BaselineImportRow, row: Seq<Seq<char>>, keys: Seq<Seq<char>>) -> bool {
    &&& r.system@ == cell_text(row, keys, "system"@)
    &&& opt_view(r.name) == present(cell_text(row, keys, "servername"@))
    &&& opt_view(r.bind_ip) == present(cell_text(row, keys, "servername_bind_ip"@))
    &&& opt_view(r.ip) == present(cell_text(row, keys, "real_ip"@))
    &&& opt_view(r.url) == present(cell_text(row, keys, "url"@))
    &&& (cell_text(row, keys, "port"@).len() == 0 ==> r.ports@.len() == 0)
    &&& (cell_text(row, keys, "port"@).len() > 0 ==> cell_ports(cell_text(row, keys, "port"@))
        == Ok::<Seq<u16>, Seq<char>>(r.ports@))
}

/// The lines below the header, up to `upto`, whose `system` cell is not
/// empty.
pub open spec fn system_lines(grid: Seq<Vec<String>>, upto: int) -> Seq<int>
    decreases upto,
{
    if upto <= 1 {
        Seq::empty()
    } else {
        let prev = system_lines(grid, upto - 1);
        if cell_text(views(grid[upto - 1]@), sheet_keys(grid[0]@), "system"@).len() > 0 {
            prev.push(upto - 1)
        } else {
            prev
        }
    }
}

/// The port cell of line `g` is not empty and does not read.
pub open spec fn bad_port_cell(grid: Seq<Vec<String>>, g: int) -> bool {
    let t = cell_text(views(grid[g]@), sheet_keys(grid[0]@), "port"@);
    t.len() > 0 && cell_ports(t) is Err
}

/// Lines kept up to one point are kept up to any later point.
proof fn lemma_system_lines_grow(grid: Seq<Vec<String>>, a: int, b: int)
    requires
        a <= b,
    ensures
        system_lines(grid, a).len() <= system_lines(grid, b).len(),
        forall|k: int| 0 <= k < system_lines(grid, a).len() ==> system_lines(grid, b)[k] == system_lines(grid, a)[k],
    decreases b - a,
{
    if a < b {
        lemma_system_lines_grow(grid, a, b - 1);
    }
}

/// The rows are, in order, what the lines with a system give.
pub open spec fn rows_of_lines(rows: Seq<BaselineImportRow>, grid: Seq<Vec<String>>, upto: int) -> bool {
    let lines = system_lines(grid, upto);
    &&& rows.len() == lines.len()
    &&& forall|k: int|
        0 <= k < rows.len() ==> #[trigger] sheet_row_is(rows[k], views(grid[lines[k]]@), sheet_keys(grid[0]@))
}

/// The header row names every required column: `system`, `real_ip` and
/// `port`.
pub open spec fn has_required_columns(keys: Seq<Seq<char>>) -> bool {
    &&& column_of(keys, "system"@) is Some
    &&& column_of(keys, "real_ip"@) is Some
    &&& column_of(keys, "port"@) is Some
}

/// Reads the import rows of a worksheet grid: the header row first, which
/// must name the `system`, `real_ip` and `port` columns, then one row per
/// line whose `system` cell is not empty.
pub fn rows_from_sheet(grid: &Vec<Vec<String>>) -> (r: Result<Vec<BaselineImportRow>, WatcherError>)
    ensures
        grid@.len() == 0 ==> (r matches Err(e) && e.is_invalid_with("worksheet has no header row"@)),
        r matches Ok(rows) ==> grid@.len() > 0 && has_required_columns(sheet_keys(grid@[0]@))
            && rows_of_lines(rows@, grid@, grid@.len() as int),
        grid@.len() > 0 && column_of(sheet_keys(grid@[0]@), "system"@) is None ==> (r matches Err(
            e) && e.is_invalid_with("missing required excel column `system`"@)),
        grid@.len() > 0 && column_of(sheet_keys(grid@[0]@), "system"@) is Some && column_of(
            sheet_keys(grid@[0]@),
            "real_ip"@,
        ) is None ==> (r matches Err(e) && e.is_invalid_with("missing required excel column `real_ip`"@)),
        grid@.len() > 0 && column_of(sheet_keys(grid@[0]@), "system"@) is Some && column_of(
            sheet_keys(grid@[0]@),
            "real_ip"@,
        ) is Some && column_of(sheet_keys(grid@[0]@), "port"@) is None ==> (r matches Err(e)
            && e.is_invalid_with("missing required excel column `port`"@)),
        r matches Err(e) ==> e is Invalid && (grid@.len() == 0 || !has_required_columns(
            sheet_keys(grid@[0]@),
        ) || exists|k: int|
            0 <= k < system_lines(grid@, grid@.len() as int).len() && #[trigger] bad_port_cell(
                grid@,
                system_lines(grid@, grid@.len() as int)[k],
            )),
{
    if grid.len() == 0 {
        return Err(error::invalid("worksheet has no header row"));
    }
    let keys = header_indexes(&grid[0]);
    proof {
        assert(views(keys@) =~= sheet_keys(grid@[0]@));
    }
    if find_column(&keys, "system").is_none() {
        return Err(error::invalid("missing required excel column `system`"));
    }
    if find_column(&keys, "real_ip").is_none() {
        return Err(error::invalid("missing required excel column `real_ip`"));
    }
    if find_column(&keys, "port").is_none() {
        return Err(error::invalid("missing required excel column `port`"));
    }
    let mut rows: Vec<BaselineImportRow> = Vec::new();
    let mut g: usize = 1;
    while g < grid.len()
        invariant
            1 <= g <= grid@.len(),
            views(keys@) == sheet_keys(grid@[0]@),
            has_required_columns(sheet_keys(grid@[0]@)),
            rows_of_lines(rows@, grid@, g as int),
        decreases grid.len() - g,
    {
        let line = &grid[g];
        let system = cell(line, &keys, "system");
        assert(views(line@) == views(grid@[g as int]@));
        if system.as_str().unicode_len() > 0 {
            let servername = cell(line, &keys, "servername");
            let bind_ip = cell(line, &keys, "servername_bind_ip");
            let real_ip = cell(line, &keys, "real_ip");
            let port_text = cell(line, &keys, "port");
            let url = cell(line, &keys, "url");
            let ports = if port_text.as_str().unicode_len() == 0 {
                Vec::new()
            } else {
                match parse_ports(port_text.as_str()) {
                    Ok(p) => p,
                    Err(e) => {
                        proof {
                            assert(system_lines(grid@, g + 1) == system_lines(grid@, g as int).push(g as int));
                            lemma_system_lines_grow(grid@, g + 1, grid@.len() as int);
                            let k = system_lines(grid@, g as int).len() as int;
                            assert(system_lines(grid@, grid@.len() as int)[k] == g);
                            assert(bad_port_cell(grid@, system_lines(grid@, grid@.len() as int)[k]));
                        }
                        return Err(e);
                    },
                }
            };
            let row = BaselineImportRow {
                system,
                name: nonempty(servername),
                bind_ip: nonempty(bind_ip),
                ip: nonempty(real_ip),
                ports,
                url: nonempty(url),
            };
            assert(sheet_row_is(row, views(grid@[g as int]@), sheet_keys(grid@[0]@)));
            let ghost before = rows@;
            rows.push(row);
            assert(forall|k: int| 0 <= k < before.len() ==> rows@[k] == before[k]);
            assert(system_lines(grid@, g + 1) == system_lines(grid@, g as int).push(g as int));
        }
        g = g + 1;
    }
    Ok(rows)
}

/// What importing the worksheet handed to `db`: every row the sheet reads
/// as was written as an `imported` baseline asset, in a transaction that
/// ran nothing but import statements and was committed.
pub open spec fn sheet_imported(db: Seq<char>, grid: Seq<Vec<String>>, rows: Seq<BaselineImportRow>) -> bool {
    &&& rows_of_lines(rows, grid, grid.len() as int)
    &&& forall|k: int| 0 <= k < rows.len() ==> #[trigger] crate::db::import::row_written(db, rows[k], "imported"@)
    &&& crate::db::sql::committed_among(db, crate::db::import::import_statements())
}

/// The refusal of a worksheet whose header row is missing or lacks a
/// required column, checked in the order `system`, `real_ip`, `port`.
pub open spec fn header_refusal(grid: Seq<Vec<String>>) -> Option<Seq<char>> {
    if grid.len() == 0 {
        Some("worksheet has no header row"@)
    } else if column_of(sheet_keys(grid[0]@), "system"@) is None {
        Some("missing required excel column `system`"@)
    } else if column_of(sheet_keys(grid[0]@), "real_ip"@) is None {
        Some("missing required excel column `real_ip`"@)
    } else if column_of(sheet_keys(grid[0]@), "port"@) is None {
        Some("missing required excel column `port`"@)
    } else {
        None
    }
}

/// Imports the baseline assets of a worksheet grid as `imported` and
/// reports how many of each kind were written. The whole sheet is read and
/// checked before the database is opened, so a refused sheet writes
/// nothing.
pub fn import_excel(db: &Database, grid: &Vec<Vec<String>>) -> (r: Result<ImportSummary, WatcherError>)
    ensures
        header_refusal(grid@) matches Some(m) ==> (r matches Err(e) && e.is_invalid_with(m)),
        grid@.len() == 0 ==> (r matches Err(e) && e.is_invalid_with("worksheet has no header row"@)),
        grid@.len() > 0 && !has_required_columns(sheet_keys(grid@[0]@)) ==> (r matches Err(e) && e is Invalid),
        r matches Ok(s) ==> has_required_columns(sheet_keys(grid@[0]@)) && exists|rows: Seq<BaselineImportRow>|
            rows_of_lines(rows, grid@, grid@.len() as int) && crate::db::import::summary_is(
                s,
                #[trigger] import_summary(rows),
            ),
        r matches Ok(_) ==> exists|rows: Seq<BaselineImportRow>| #[trigger] sheet_imported(db.spec_path(), grid@, rows),
        r matches Err(e) ==> e is Invalid || e.is_storage(),
{
    let rows = rows_from_sheet(grid)?;
    match crate::db::import::count_port_entries(&rows) {
        Some(_) => {},
        None => {
            return Err(error::invalid("too many ports"));
        },
    }
    proof {
        crate::db::import::lemma_summary_ports_bound(rows@);
    }
    let summary = db.import_baseline_rows(&rows, "imported")?;
    assert(crate::db::import::summary_is(summary, import_summary(rows@)));
    assert(sheet_imported(db.spec_path(), grid@, rows@));
    Ok(summary)
}

} // verus!
