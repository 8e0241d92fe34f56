//! Helpers shared by the storage modules: parameter spelling, row decoding
//! and small value normalisations.

use vstd::prelude::*;

use crate::error::WatcherError;
use crate::models::{BatchRow, DomainAsset, IpAsset, LogRow, PortAsset, UrlAsset};
use crate::text::{self, decimal, trim};

use super::sql::{self, int_of, opt_text_of, opt_view, text_of, SqlValue};

verus! {

/// The `LIKE` pattern for an optional keyword: `%keyword%`, or `%` for none.
pub open spec fn spec_like_pattern(keyword: Option<Seq<char>>) -> Seq<char> {
    match keyword {
        Some(k) => seq!['%'] + k + seq!['%'],
        None => seq!['%'],
    }
}

/// Builds the `LIKE` pattern that matches values containing `keyword`.
pub fn like_pattern(keyword: Option<&str>) -> (p: String)
    ensures
        p@ == spec_like_pattern(match keyword { Some(k) => Some(k@), None => None }),
{
    let mut p = String::new();
    text::push_char(&mut p, '%');
    match keyword {
        Some(k) => {
            p.append(k);
            text::push_char(&mut p, '%');
        },
        None => {},
    }
    assert(p@ =~= spec_like_pattern(match keyword { Some(k) => Some(k@), None => None }));
    p
}

/// The trimmed value, when it is not blank.
pub open spec fn spec_trimmed_opt(value: Option<Seq<char>>) -> Option<Seq<char>> {
    match value {
        Some(v) => if trim(v).len() > 0 { Some(trim(v)) } else { None },
        None => None,
    }
}

/// Trims an optional value and drops it when it is blank.
pub fn trimmed_opt(value: Option<&str>) -> (r: Option<String>)
    ensures
        opt_view(r) == spec_trimmed_opt(match value { Some(v) => Some(v@), None => None }),
{
    match value {
        Some(v) => {
            let t = text::trimmed(v);
            if t.len() > 0 {
                Some(text::string_of(&t))
            } else {
                None
            }
        },
        None => None,
    }
}

/// A dictionary path in its stored form: trimmed, rooted at `/`, or empty
/// when blank.
pub open spec fn spec_normalize_path(path: Seq<char>) -> Seq<char> {
    let t = trim(path);
    if t.len() == 0 {
        Seq::empty()
    } else if t[0] == '/' {
        t
    } else {
        seq!['/'] + t
    }
}

/// Normalises a dictionary path: trimmed, with a leading `/` added when
/// missing; a blank path normalises to the empty string.
pub fn normalize_path(path: &str) -> (r: String)
    ensures
        r@ == spec_normalize_path(path@),
{
    let t = text::trimmed(path);
    if t.len() == 0 {
        String::new()
    } else if t[0] == '/' {
        text::string_of(&t)
    } else {
        let mut v: Vec<char> = Vec::new();
        v.push('/');
        let mut rest = t;
        v.append(&mut rest);
        assert(v@ =~= seq!['/'] + trim(path@));
        text::string_of(&v)
    }
}

/// The text `true` or `false`.
pub fn bool_text(value: bool) -> (s: &'static str)
    ensures
        value ==> s@ == "true"@,
        !value ==> s@ == "false"@,
{
    if value {
        "true"
    } else {
        "false"
    }
}

/// Ports joined by commas in their decimal spelling.
pub open spec fn join_ports(ports: Seq<u16>) -> Seq<char>
    decreases ports.len(),
{
    if ports.len() == 0 {
        Seq::empty()
    } else if ports.len() == 1 {
        decimal(ports[0] as nat)
    } else {
        join_ports(ports.drop_last()) + seq![','] + decimal(ports.last() as nat)
    }
}

/// The comma-separated list of ports, or `None` for an empty list.
pub fn compact_port_list(ports: &[u16]) -> (r: Option<String>)
    ensures
        match r {
            Some(s) => ports@.len() > 0 && s@ == join_ports(ports@),
            None => ports@.len() == 0,
        },
{
    if ports.len() == 0 {
        return None;
    }
    let mut out: Vec<char> = Vec::new();
    let mut i: usize = 0;
    while i < ports.len()
        invariant
            i <= ports@.len(),
            out@ == join_ports(ports@.take(i as int)),
        decreases ports.len() - i,
    {
        let mut digits = text::decimal_chars(ports[i] as u64);
        proof {
            let t = ports@.take(i + 1);
            assert(t.drop_last() =~= ports@.take(i as int));
            assert(t.last() == ports@[i as int]);
            if i == 0 {
                assert(ports@.take(0) =~= Seq::<u16>::empty());
            }
        }
        if i > 0 {
            out.push(',');
        }
        out.append(&mut digits);
        i = i + 1;
    }
    assert(ports@.take(ports@.len() as int) =~= ports@);
    Some(text::string_of(&out))
}

/// The decimal spelling of a signed integer, as `Display` writes it.
pub open spec fn signed_decimal(n: int) -> Seq<char> {
    if n < 0 {
        seq!['-'] + decimal((-n) as nat)
    } else {
        decimal(n as nat)
    }
}

/// Spells a signed integer in decimal.
pub fn signed_decimal_string(n: i64) -> (s: String)
    ensures
        s@ == signed_decimal(n as int),
{
    if n < 0 {
        let magnitude: u64 = if n == i64::MIN {
            0x8000_0000_0000_0000u64
        } else {
            (-n) as u64
        };
        let mut v: Vec<char> = Vec::new();
        v.push('-');
        let mut digits = text::decimal_chars(magnitude);
        v.append(&mut digits);
        assert(v@ =~= seq!['-'] + decimal((-(n as int)) as nat));
        text::string_of(&v)
    } else {
        text::decimal_string(n as u64)
    }
}

/// A result row decodes as a domain asset.
pub open spec fn domain_from_row(row: Seq<SqlValue>, a: DomainAsset) -> bool {
    &&& row.len() >= 6
    &&& text_of(row[0]) == Some(a.id@)
    &&& text_of(row[1]) == Some(a.system_id@)
    &&& text_of(row[2]) == Some(a.system_name@)
    &&& text_of(row[3]) == Some(a.name@)
    &&& (row[4] is Null || row[4] is Text) && opt_view(a.bind_ip) == opt_text_of(row[4])
    &&& int_of(row[5]) is Some && a.is_baseline == (int_of(row[5]).unwrap() == 1)
}

/// Decodes `id, system_id, system_name, name, bind_ip, is_baseline`.
pub fn map_domain(row: &[SqlValue]) -> (r: Result<DomainAsset, WatcherError>)
    ensures
        r matches Err(e) ==> e is Decode,
        r matches Ok(a) ==> domain_from_row(row@, a),
{
    let id = sql::get_text(row, 0)?;
    let system_id = sql::get_text(row, 1)?;
    let system_name = sql::get_text(row, 2)?;
    let name = sql::get_text(row, 3)?;
    let bind_ip = sql::get_opt_text(row, 4)?;
    let flag = sql::get_int(row, 5)?;
    Ok(DomainAsset { id, system_id, system_name, name, bind_ip, is_baseline: flag == 1 })
}

/// A result row decodes as an IP asset.
pub open spec fn ip_from_row(row: Seq<SqlValue>, a: IpAsset) -> bool {
    &&& row.len() >= 6
    &&& text_of(row[0]) == Some(a.id@)
    &&& text_of(row[1]) == Some(a.system_id@)
    &&& text_of(row[2]) == Some(a.system_name@)
    &&& text_of(row[3]) == Some(a.ip@)
    &&& text_of(row[4]) == Some(a.source@)
    &&& int_of(row[5]) is Some && a.is_baseline == (int_of(row[5]).unwrap() == 1)
}

/// Decodes `id, system_id, system_name, ip, source, is_baseline`.
pub fn map_ip(row: &[SqlValue]) -> (r: Result<IpAsset, WatcherError>)
    ensures
        r matches Err(e) ==> e is Decode,
        r matches Ok(a) ==> ip_from_row(row@, a),
{
    let id = sql::get_text(row, 0)?;
    let system_id = sql::get_text(row, 1)?;
    let system_name = sql::get_text(row, 2)?;
    let ip = sql::get_text(row, 3)?;
    let source = sql::get_text(row, 4)?;
    let flag = sql::get_int(row, 5)?;
    Ok(IpAsset { id, system_id, system_name, ip, source, is_baseline: flag == 1 })
}

/// A result row decodes as a port asset.
pub open spec fn port_from_row(row: Seq<SqlValue>, a: PortAsset) -> bool {
    &&& row.len() >= 12
    &&& text_of(row[0]) == Some(a.id@)
    &&& text_of(row[1]) == Some(a.system_id@)
    &&& text_of(row[2]) == Some(a.system_name@)
    &&& (row[3] is Null || row[3] is Text) && opt_view(a.ip_id) == opt_text_of(row[3])
    &&& (row[4] is Null || row[4] is Text) && opt_view(a.ip) == opt_text_of(row[4])
    &&& int_of(row[5]) is Some && a.port == (int_of(row[5]).unwrap() as u16)
    &&& text_of(row[6]) == Some(a.state@)
    &&& (row[7] is Null || row[7] is Text) && opt_view(a.service) == opt_text_of(row[7])
    &&& (row[8] is Null || row[8] is Text) && opt_view(a.fingerprint) == opt_text_of(row[8])
    &&& int_of(row[9]) is Some && a.is_web == (int_of(row[9]).unwrap() == 1)
    &&& (row[10] is Null || row[10] is Text) && opt_view(a.scheme) == opt_text_of(row[10])
    &&& int_of(row[11]) is Some && a.is_baseline == (int_of(row[11]).unwrap() == 1)
}

/// Decodes `id, system_id, system_name, ip_id, ip, port, state, service,
/// fingerprint, is_web, scheme, is_baseline`.
pub fn map_port(row: &[SqlValue]) -> (r: Result<PortAsset, WatcherError>)
    ensures
        r matches Err(e) ==> e is Decode,
        r matches Ok(a) ==> port_from_row(row@, a),
{
    let id = sql::get_text(row, 0)?;
    let system_id = sql::get_text(row, 1)?;
    let system_name = sql::get_text(row, 2)?;
    let ip_id = sql::get_opt_text(row, 3)?;
    let ip = sql::get_opt_text(row, 4)?;
    let port = sql::get_int(row, 5)?;
    let state = sql::get_text(row, 6)?;
    let service = sql::get_opt_text(row, 7)?;
    let fingerprint = sql::get_opt_text(row, 8)?;
    let web = sql::get_int(row, 9)?;
    let scheme = sql::get_opt_text(row, 10)?;
    let flag = sql::get_int(row, 11)?;
    Ok(
        PortAsset {
            id,
            system_id,
            system_name,
            ip_id,
            ip,
            port: #[verifier::truncate] (port as u16),
            state,
            service,
            fingerprint,
            is_web: web == 1,
            scheme,
            is_baseline: flag == 1,
        },
    )
}

/// A result row decodes as a URL asset.
pub open spec fn url_from_row(row: Seq<SqlValue>, a: UrlAsset) -> bool {
    &&& row.len() >= 8
    &&& text_of(row[0]) == Some(a.id@)
    &&& text_of(row[1]) == Some(a.system_id@)
    &&& text_of(row[2]) == Some(a.system_name@)
    &&& text_of(row[3]) == Some(a.url@)
    &&& text_of(row[4]) == Some(a.source@)
    &&& (row[5] is Null || row[5] is Integer) && match int_of(row[5]) {
        Some(n) => a.status_code == Some(n as u16),
        None => a.status_code is None,
    }
    &&& int_of(row[6]) == Some(a.value_score)
    &&& int_of(row[7]) is Some && a.is_baseline == (int_of(row[7]).unwrap() == 1)
}

/// Decodes `id, system_id, system_name, url, source, status_code,
/// value_score, is_baseline`.
pub fn map_url(row: &[SqlValue]) -> (r: Result<UrlAsset, WatcherError>)
    ensures
        r matches Err(e) ==> e is Decode,
        r matches Ok(a) ==> url_from_row(row@, a),
{
    let id = sql::get_text(row, 0)?;
    let system_id = sql::get_text(row, 1)?;
    let system_name = sql::get_text(row, 2)?;
    let url = sql::get_text(row, 3)?;
    let source = sql::get_text(row, 4)?;
    let status = sql::get_opt_int(row, 5)?;
    let value_score = sql::get_int(row, 6)?;
    let flag = sql::get_int(row, 7)?;
    let status_code = match status {
        Some(n) => Some(#[verifier::truncate] (n as u16)),
        None => None,
    };
    Ok(UrlAsset { id, system_id, system_name, url, source, status_code, value_score, is_baseline: flag == 1 })
}

/// A result row decodes as a batch row.
pub open spec fn batch_from_row(row: Seq<SqlValue>, b: BatchRow) -> bool {
    &&& row.len() >= 5
    &&& text_of(row[0]) == Some(b.id@)
    &&& text_of(row[1]) == Some(b.status@)
    &&& text_of(row[2]) == Some(b.started_at@)
    &&& (row[3] is Null || row[3] is Text) && opt_view(b.ended_at) == opt_text_of(row[3])
    &&& (row[4] is Null || row[4] is Text) && opt_view(b.report_zip) == opt_text_of(row[4])
}

/// Decodes `id, status, started_at, ended_at, report_zip`.
pub fn map_batch(row: &[SqlValue]) -> (r: Result<BatchRow, WatcherError>)
    ensures
        r matches Err(e) ==> e is Decode,
        r matches Ok(b) ==> batch_from_row(row@, b),
{
    let id = sql::get_text(row, 0)?;
    let status = sql::get_text(row, 1)?;
    let started_at = sql::get_text(row, 2)?;
    let ended_at = sql::get_opt_text(row, 3)?;
    let report_zip = sql::get_opt_text(row, 4)?;
    Ok(BatchRow { id, status, started_at, ended_at, report_zip })
}

/// A result row decodes as a log record.
pub open spec fn log_from_row(row: Seq<SqlValue>, l: LogRow) -> bool {
    &&& row.len() >= 6
    &&& text_of(row[0]) == Some(l.id@)
    &&& text_of(row[1]) == Some(l.created_at@)
    &&& text_of(row[2]) == Some(l.level@)
    &&& text_of(row[3]) == Some(l.target@)
    &&& text_of(row[4]) == Some(l.message@)
    &&& (row[5] is Null || row[5] is Text) && opt_view(l.fields) == opt_text_of(row[5])
}

/// Decodes `id, created_at, level, target, message, fields`.
pub fn map_log(row: &[SqlValue]) -> (r: Result<LogRow, WatcherError>)
    ensures
        r matches Err(e) ==> e is Decode,
        r matches Ok(l) ==> log_from_row(row@, l),
{
    let id = sql::get_text(row, 0)?;
    let created_at = sql::get_text(row, 1)?;
    let level = sql::get_text(row, 2)?;
    let target = sql::get_text(row, 3)?;
    let message = sql::get_text(row, 4)?;
    let fields = sql::get_opt_text(row, 5)?;
    Ok(LogRow { id, created_at, level, target, message, fields })
}

/// Decodes every row as a domain asset.
pub fn map_domains(rows: &[Vec<SqlValue>]) -> (r: Result<Vec<DomainAsset>, WatcherError>)
    ensures
        r matches Err(e) ==> e is Decode,
        r matches Ok(v) ==> v@.len() == rows@.len() && forall|i: int|
            0 <= i < v@.len() ==> domain_from_row(rows@[i]@, #[trigger] v@[i]),
{
    let mut out: Vec<DomainAsset> = Vec::new();
    let mut i: usize = 0;
    while i < rows.len()
        invariant
            i <= rows@.len(),
            out@.len() == i,
            forall|k: int| 0 <= k < i ==> domain_from_row(rows@[k]@, #[trigger] out@[k]),
        decreases rows.len() - i,
    {
        let a = map_domain(&rows[i])?;
        out.push(a);
        i = i + 1;
    }
    Ok(out)
}

/// Decodes every row as an IP asset.
pub fn map_ips(rows: &[Vec<SqlValue>]) -> (r: Result<Vec<IpAsset>, WatcherError>)
    ensures
        r matches Err(e) ==> e is Decode,
        r matches Ok(v) ==> v@.len() == rows@.len() && forall|i: int|
            0 <= i < v@.len() ==> ip_from_row(rows@[i]@, #[trigger] v@[i]),
{
    let mut out: Vec<IpAsset> = Vec::new();
    let mut i: usize = 0;
    while i < rows.len()
        invariant
            i <= rows@.len(),
            out@.len() == i,
            forall|k: int| 0 <= k < i ==> ip_from_row(rows@[k]@, #[trigger] out@[k]),
        decreases rows.len() - i,
    {
        let a = map_ip(&rows[i])?;
        out.push(a);
        i = i + 1;
    }
    Ok(out)
}

/// Decodes every row as a port asset.
pub fn map_ports(rows: &[Vec<SqlValue>]) -> (r: Result<Vec<PortAsset>, WatcherError>)
    ensures
        r matches Err(e) ==> e is Decode,
        r matches Ok(v) ==> v@.len() == rows@.len() && forall|i: int|
            0 <= i < v@.len() ==> port_from_row(rows@[i]@, #[trigger] v@[i]),
{
    let mut out: Vec<PortAsset> = Vec::new();
    let mut i: usize = 0;
    while i < rows.len()
        invariant
            i <= rows@.len(),
            out@.len() == i,
            forall|k: int| 0 <= k < i ==> port_from_row(rows@[k]@, #[trigger] out@[k]),
        decreases rows.len() - i,
    {
        let a = map_port(&rows[i])?;
        out.push(a);
        i = i + 1;
    }
    Ok(out)
}

/// Decodes every row as a URL asset.
pub fn map_urls(rows: &[Vec<SqlValue>]) -> (r: Result<Vec<UrlAsset>, WatcherError>)
    ensures
        r matches Err(e) ==> e is Decode,
        r matches Ok(v) ==> v@.len() == rows@.len() && forall|i: int|
            0 <= i < v@.len() ==> url_from_row(rows@[i]@, #[trigger] v@[i]),
{
    let mut out: Vec<UrlAsset> = Vec::new();
    let mut i: usize = 0;
    while i < rows.len()
        invariant
            i <= rows@.len(),
            out@.len() == i,
            forall|k: int| 0 <= k < i ==> url_from_row(rows@[k]@, #[trigger] out@[k]),
        decreases rows.len() - i,
    {
        let a = map_url(&rows[i])?;
        out.push(a);
        i = i + 1;
    }
    Ok(out)
}

/// Decodes every row as a batch row.
pub fn map_batches(rows: &[Vec<SqlValue>]) -> (r: Result<Vec<BatchRow>, WatcherError>)
    ensures
        r matches Err(e) ==> e is Decode,
        r matches Ok(v) ==> v@.len() == rows@.len() && forall|i: int|
            0 <= i < v@.len() ==> batch_from_row(rows@[i]@, #[trigger] v@[i]),
{
    let mut out: Vec<BatchRow> = Vec::new();
    let mut i: usize = 0;
    while i < rows.len()
        invariant
            i <= rows@.len(),
            out@.len() == i,
            forall|k: int| 0 <= k < i ==> batch_from_row(rows@[k]@, #[trigger] out@[k]),
        decreases rows.len() - i,
    {
        let b = map_batch(&rows[i])?;
        out.push(b);
        i = i + 1;
    }
    Ok(out)
}

/// Decodes every row as a log record.
pub fn map_logs(rows: &[Vec<SqlValue>]) -> (r: Result<Vec<LogRow>, WatcherError>)
    ensures
        r matches Err(e) ==> e is Decode,
        r matches Ok(v) ==> v@.len() == rows@.len() && forall|i: int|
            0 <= i < v@.len() ==> log_from_row(rows@[i]@, #[trigger] v@[i]),
{
    let mut out: Vec<LogRow> = Vec::new();
    let mut i: usize = 0;
    while i < rows.len()
        invariant
            i <= rows@.len(),
            out@.len() == i,
            forall|k: int| 0 <= k < i ==> log_from_row(rows@[k]@, #[trigger] out@[k]),
        decreases rows.len() - i,
    {
        let l = map_log(&rows[i])?;
        out.push(l);
        i = i + 1;
    }
    Ok(out)
}

/// The text a column shows in a text table: its text, its integer in
/// decimal, or nothing for any other value.
pub open spec fn cell_text(v: SqlValue) -> Seq<char> {
    match v {
        SqlValue::Text(t) => t@,
        SqlValue::Integer(n) => signed_decimal(n as int),
        _ => Seq::empty(),
    }
}

/// Spells one column value for a text table.
pub fn cell_string(v: &SqlValue) -> (s: String)
    ensures
        s@ == cell_text(*v),
{
    match v {
        SqlValue::Text(t) => t.clone(),
        SqlValue::Integer(n) => signed_decimal_string(*n),
        _ => String::new(),
    }
}

/// Spells every column of a row for a text table.
pub fn row_strings(row: &[SqlValue]) -> (r: Vec<String>)
    ensures
        r@.len() == row@.len(),
        forall|i: int| 0 <= i < row@.len() ==> (#[trigger] r@[i])@ == cell_text(row@[i]),
{
    let mut out: Vec<String> = Vec::new();
    let mut i: usize = 0;
    while i < row.len()
        invariant
            i <= row@.len(),
            out@.len() == i,
            forall|k: int| 0 <= k < i ==> (#[trigger] out@[k])@ == cell_text(row@[k]),
        decreases row.len() - i,
    {
        out.push(cell_string(&row[i]));
        i = i + 1;
    }
    out
}

/// Spells every row for a text table.
pub fn table_strings(rows: &[Vec<SqlValue>]) -> (r: Vec<Vec<String>>)
    ensures
        r@.len() == rows@.len(),
        forall|i: int|
            0 <= i < rows@.len() ==> (#[trigger] r@[i])@.len() == rows@[i]@.len() && forall|
                j: int,
            |
                0 <= j < rows@[i]@.len() ==> (#[trigger] r@[i]@[j])@ == cell_text(rows@[i]@[j]),
{
    let mut out: Vec<Vec<String>> = Vec::new();
    let mut i: usize = 0;
    while i < rows.len()
        invariant
            i <= rows@.len(),
            out@.len() == i,
            forall|k: int|
                0 <= k < i ==> (#[trigger] out@[k])@.len() == rows@[k]@.len() && forall|j: int|
                    0 <= j < rows@[k]@.len() ==> (#[trigger] out@[k]@[j])@ == cell_text(
                        rows@[k]@[j],
                    ),
        decreases rows.len() - i,
    {
        out.push(row_strings(&rows[i]));
        i = i + 1;
    }
    out
}

/// The texts of a header line, in order.
pub fn header_strings(names: &[&str]) -> (r: Vec<String>)
    ensures
        r@.len() == names@.len(),
        forall|i: int| 0 <= i < names@.len() ==> (#[trigger] r@[i])@ == names@[i]@,
{
    let mut out: Vec<String> = Vec::new();
    let mut i: usize = 0;
    while i < names.len()
        invariant
            i <= names@.len(),
            out@.len() == i,
            forall|k: int| 0 <= k < i ==> (#[trigger] out@[k])@ == names@[k]@,
        decreases names.len() - i,
    {
        out.push(String::from_str(names[i]));
        i = i + 1;
    }
    out
}

} // verus!
