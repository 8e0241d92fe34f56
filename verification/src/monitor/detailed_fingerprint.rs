//! Reading the service fingerprint of one TCP port out of the XML report
//! that `nmap -sV -oX -` prints.
//!
//! The report is scanned the way the patterns `<port\b[^>]*>.*?</port>`,
//! `<NAME\b[^>]*>`, `<cpe>(.*?)</cpe>` and `\bNAME\s*=\s*"([^"]*)"` match
//! it: leftmost first, lazily where marked.

use vstd::prelude::*;

use crate::search::{
    boundary, first_char_from, first_occ_from, skip_ws_from, replace_all, join_with, views,
    lemma_first_char_from, lemma_first_occ_from, lemma_skip_ws_from, is_boundary, find_char_from,
    find_seq_from, skip_ws, replace_chars, join_strings,
};
use crate::db::sql::opt_view;
use crate::text::{occurs_at, decimal, chars_of, chars_occur_at, sub_chars, decimal_chars, string_of};

verus! {

/// What nmap reported about one port: the service name, when it named one,
/// and a `key=value; ...` summary of the port element.
#[derive(Debug, Clone, PartialEq, Eq)]
pub struct NmapFingerprint {
    pub service: Option<String>,
    pub fingerprint: Option<String>,
}

/// An opening tag `<NAME` followed by a word boundary starts at `i`.
pub open spec fn tag_opens_at(s: Seq<char>, name: Seq<char>, i: int) -> bool {
    &&& 0 <= i < s.len()
    &&& s[i] == '<'
    &&& occurs_at(s, name, i + 1)
    &&& boundary(s, i + 1 + name.len())
}

/// Where the tag `<NAME\b[^>]*>` that starts at `i` ends (one past its `>`).
pub open spec fn tag_end(s: Seq<char>, name: Seq<char>, i: int) -> Option<int> {
    if tag_opens_at(s, name, i) {
        match first_char_from(s, '>', i + 1 + name.len()) {
            Some(g) => Some(g + 1),
            None => None,
        }
    } else {
        None
    }
}

/// The leftmost tag `<NAME\b[^>]*>` that starts at or after `i`.
pub open spec fn find_tag_from(s: Seq<char>, name: Seq<char>, i: int) -> Option<Seq<char>>
    decreases s.len() - i,
{
    if i < 0 || i >= s.len() {
        None
    } else {
        match tag_end(s, name, i) {
            Some(e) => Some(s.subrange(i, e)),
            None => find_tag_from(s, name, i + 1),
        }
    }
}

/// The first tag named `name` in `s`.
pub open spec fn find_tag(s: Seq<char>, name: Seq<char>) -> Option<Seq<char>> {
    find_tag_from(s, name, 0)
}

/// The five XML entities decoded, `&amp;` last (so `&amp;lt;` gives `&lt;`).
pub open spec fn xml_unescape(s: Seq<char>) -> Seq<char> {
    replace_all(
        replace_all(
            replace_all(
                replace_all(replace_all(s, "&quot;"@, "\""@), "&apos;"@, "'"@),
                "&lt;"@,
                "<"@,
            ),
            "&gt;"@,
            ">"@,
        ),
        "&amp;"@,
        "&"@,
    )
}

/// The bounds of the quoted value of `NAME\s*=\s*"..."` when that pattern,
/// with a word boundary before it, matches at `i`.
pub open spec fn attr_span_at(t: Seq<char>, name: Seq<char>, i: int) -> Option<(int, int)> {
    if 0 <= i && boundary(t, i) && occurs_at(t, name, i) {
        let a = skip_ws_from(t, i + name.len());
        if a < t.len() && t[a] == '=' {
            let b = skip_ws_from(t, a + 1);
            if b < t.len() && t[b] == '"' {
                match first_char_from(t, '"', b + 1) {
                    Some(q) => Some((b + 1, q)),
                    None => None,
                }
            } else {
                None
            }
        } else {
            None
        }
    } else {
        None
    }
}

/// The leftmost match of the attribute pattern at or after `i`.
pub open spec fn attr_span_from(t: Seq<char>, name: Seq<char>, i: int) -> Option<(int, int)>
    decreases t.len() - i,
{
    if i < 0 || i >= t.len() {
        None
    } else {
        match attr_span_at(t, name, i) {
            Some(sp) => Some(sp),
            None => attr_span_from(t, name, i + 1),
        }
    }
}

/// The decoded value of attribute `name` in the tag text `t`.
pub open spec fn attr_value(t: Seq<char>, name: Seq<char>) -> Option<Seq<char>> {
    match attr_span_from(t, name, 0) {
        Some(sp) => Some(xml_unescape(t.subrange(sp.0, sp.1))),
        None => None,
    }
}

/// The decoded text of the first `<cpe>...</cpe>` element, when not empty.
pub open spec fn find_cpe(b: Seq<char>) -> Option<Seq<char>> {
    match first_occ_from(b, "<cpe>"@, 0) {
        Some(i) => match first_occ_from(b, "</cpe>"@, i + 5) {
            Some(j) => {
                let v = xml_unescape(b.subrange(i + 5, j));
                if v.len() > 0 {
                    Some(v)
                } else {
                    None
                }
            },
            None => None,
        },
        None => None,
    }
}

/// Where the lazy `<port\b[^>]*>.*?</port>` that starts at `i` ends.
pub open spec fn port_block_end(s: Seq<char>, i: int) -> Option<int> {
    match tag_end(s, "port"@, i) {
        Some(g) => match first_occ_from(s, "</port>"@, g) {
            Some(c) => Some(c + 7),
            None => None,
        },
        None => None,
    }
}

/// The port element is the one for TCP port `port`.
pub open spec fn block_is_for(b: Seq<char>, port: u16) -> bool {
    attr_value(b, "protocol"@) == Some("tcp"@) && attr_value(b, "portid"@) == Some(
        decimal(port as nat),
    )
}

/// The first port element at or after `p`, in the order the pattern finds
/// them one after another, that is the one for TCP port `port`.
pub open spec fn find_port_block_from(s: Seq<char>, port: u16, p: int) -> Option<Seq<char>>
    decreases s.len() - p,
{
    if p < 0 || p >= s.len() {
        None
    } else {
        match port_block_end(s, p) {
            Some(e) => {
                proof {
                    lemma_port_block_end(s, p);
                }
                if block_is_for(s.subrange(p, e), port) {
                    Some(s.subrange(p, e))
                } else {
                    find_port_block_from(s, port, e)
                }
            },
            None => find_port_block_from(s, port, p + 1),
        }
    }
}

/// The element for TCP port `port` in the report.
pub open spec fn find_port_block(xml: Seq<char>, port: u16) -> Option<Seq<char>> {
    find_port_block_from(xml, port, 0)
}

/// `label=value` when the attribute is present and not empty, else nothing.
pub open spec fn labeled(tag: Seq<char>, label: Seq<char>, attr: Seq<char>) -> Seq<Seq<char>> {
    match attr_value(tag, attr) {
        Some(v) => if v.len() > 0 {
            seq![label + "="@ + v]
        } else {
            seq![]
        },
        None => seq![],
    }
}

/// The state the `<state>` tag of a port element reports, `unknown` when
/// it reports none.
pub open spec fn port_state(b: Seq<char>) -> Seq<char> {
    match find_tag(b, "state"@) {
        Some(t) => match attr_value(t, "state"@) {
            Some(v) => v,
            None => "unknown"@,
        },
        None => "unknown"@,
    }
}

/// The service name of a port element, when its `<service>` tag names one.
pub open spec fn port_service(b: Seq<char>) -> Option<Seq<char>> {
    match find_tag(b, "service"@) {
        Some(t) => match attr_value(t, "name"@) {
            Some(v) => if v.len() > 0 {
                Some(v)
            } else {
                None
            },
            None => None,
        },
        None => None,
    }
}

/// The summary pieces of a port element, in order: state, the service
/// attributes that are present, the CPE.
pub open spec fn fingerprint_parts(b: Seq<char>) -> Seq<Seq<char>> {
    let head = seq!["nmap_state="@ + port_state(b)];
    let with_service = match find_tag(b, "service"@) {
        Some(t) => head + labeled(t, "service"@, "name"@) + labeled(t, "product"@, "product"@)
            + labeled(t, "version"@, "version"@) + labeled(t, "extrainfo"@, "extrainfo"@)
            + labeled(t, "ostype"@, "ostype"@) + labeled(t, "conf"@, "conf"@),
        None => head,
    };
    match find_cpe(b) {
        Some(c) => with_service.push("cpe="@ + c),
        None => with_service,
    }
}

/// The attributes of a `<service>` tag that a summary reports, each with
/// the label it is reported under.
pub open spec fn reported_attribute(label: Seq<char>, attr: Seq<char>) -> bool {
    ||| label == "service"@ && attr == "name"@
    ||| label == "product"@ && attr == "product"@
    ||| label == "version"@ && attr == "version"@
    ||| label == "extrainfo"@ && attr == "extrainfo"@
    ||| label == "ostype"@ && attr == "ostype"@
    ||| label == "conf"@ && attr == "conf"@
}

/// What is in one list is in the list it starts or ends.
proof fn lemma_in_concat(a: Seq<Seq<char>>, b: Seq<Seq<char>>, e: Seq<char>)
    ensures
        (a.contains(e) || b.contains(e)) ==> (a + b).contains(e),
{
    if a.contains(e) {
        let i = choose|i: int| 0 <= i < a.len() && a[i] == e;
        assert((a + b)[i] == e);
    } else if b.contains(e) {
        let j = choose|j: int| 0 <= j < b.len() && b[j] == e;
        assert((a + b)[a.len() + j] == e);
    }
}

/// The summary of a port element starts with its state, ends with its CPE
/// when it has one, and reports every service attribute the port's
/// `<service>` tag gives a non-empty value, as `label=value`: the service
/// name, product, version, extra information, OS type and confidence. The
/// service name is also the port's service.
pub proof fn lemma_summary_reports_service(b: Seq<char>, label: Seq<char>, attr: Seq<char>)
    requires
        reported_attribute(label, attr),
    ensures
        fingerprint_parts(b)[0] == "nmap_state="@ + port_state(b),
        find_tag(b, "state"@) matches Some(t) ==> (attr_value(t, "state"@) matches Some(v) ==> fingerprint_parts(b)[0]
            == "nmap_state="@ + v),
        (find_tag(b, "state"@) is None || attr_value(find_tag(b, "state"@).unwrap(), "state"@) is None)
            ==> fingerprint_parts(b)[0] == "nmap_state=unknown"@,
        find_tag(b, "service"@) is None ==> fingerprint_parts(b) == match find_cpe(b) {
            Some(c) => seq!["nmap_state="@ + port_state(b), "cpe="@ + c],
            None => seq!["nmap_state="@ + port_state(b)],
        },
        find_cpe(b) matches Some(c) ==> fingerprint_parts(b).last() == "cpe="@ + c,
        find_tag(b, "service"@) matches Some(t) ==> (attr_value(t, attr) matches Some(v) ==> (v.len() > 0
            ==> fingerprint_parts(b).contains(label + "="@ + v))),
        find_tag(b, "service"@) matches Some(t) ==> (attr_value(t, "name"@) matches Some(v) ==> (v.len() > 0
            ==> port_service(b) == Some(v))),
{
    let head = seq!["nmap_state="@ + port_state(b)];
    match find_tag(b, "service"@) {
        Some(t) => {
            let l1 = labeled(t, "service"@, "name"@);
            let l2 = labeled(t, "product"@, "product"@);
            let l3 = labeled(t, "version"@, "version"@);
            let l4 = labeled(t, "extrainfo"@, "extrainfo"@);
            let l5 = labeled(t, "ostype"@, "ostype"@);
            let l6 = labeled(t, "conf"@, "conf"@);
            let w1 = head + l1;
            let w2 = w1 + l2;
            let w3 = w2 + l3;
            let w4 = w3 + l4;
            let w5 = w4 + l5;
            let w6 = w5 + l6;
            if let Some(v) = attr_value(t, attr) {
                if v.len() > 0 {
                    let e = label + "="@ + v;
                    assert(labeled(t, label, attr) == seq![e]);
                    assert(seq![e].contains(e)) by {
                        assert(seq![e][0] == e);
                    }
                    lemma_in_concat(head, l1, e);
                    lemma_in_concat(w1, l2, e);
                    lemma_in_concat(w2, l3, e);
                    lemma_in_concat(w3, l4, e);
                    lemma_in_concat(w4, l5, e);
                    lemma_in_concat(w5, l6, e);
                    assert(w6.contains(e));
                    match find_cpe(b) {
                        Some(c) => {
                            assert(w6.push("cpe="@ + c) == w6 + seq!["cpe="@ + c]);
                            lemma_in_concat(w6, seq!["cpe="@ + c], e);
                        },
                        None => {},
                    }
                }
            }
            assert(w6[0] == head[0]);
        },
        None => {
            assert(seq!["nmap_state="@ + port_state(b)].push("cpe="@ + find_cpe(b).unwrap()) =~= seq![
                "nmap_state="@ + port_state(b),
                "cpe="@ + find_cpe(b).unwrap(),
            ]);
        },
    }
    reveal_strlit("nmap_state=");
    reveal_strlit("unknown");
    reveal_strlit("nmap_state=unknown");
    assert("nmap_state="@ + "unknown"@ =~= "nmap_state=unknown"@);
}

/// A port element ends after the tag that opens it.
pub proof fn lemma_port_block_end(s: Seq<char>, i: int)
    ensures
        match port_block_end(s, i) {
            Some(e) => i < e <= s.len(),
            None => true,
        },
{
    reveal_strlit("port");
    reveal_strlit("</port>");
    if tag_opens_at(s, "port"@, i) {
        lemma_first_char_from(s, '>', i + 5);
        match first_char_from(s, '>', i + 5) {
            Some(g) => {
                lemma_first_occ_from(s, "</port>"@, g + 1);
            },
            None => {},
        }
    }
}

/// The characters of a string literal, by value.
fn literal(s: &str) -> (v: Vec<char>)
    ensures
        v@ == s@,
{
    chars_of(s)
}

/// Decides [`tag_opens_at`].
fn tag_opens(v: &[char], name: &[char], i: usize) -> (b: bool)
    ensures
        b == tag_opens_at(v@, name@, i as int),
{
    if i >= v.len() || v[i] != '<' {
        return false;
    }
    if !chars_occur_at(v, name, i + 1) {
        return false;
    }
    is_boundary(v, i + 1 + name.len())
}

/// Computes [`tag_end`].
fn tag_end_at(v: &[char], name: &[char], i: usize) -> (r: Option<usize>)
    ensures
        match r {
            Some(e) => tag_end(v@, name@, i as int) == Some(e as int) && i < e <= v@.len(),
            None => tag_end(v@, name@, i as int) is None,
        },
{
    if !tag_opens(v, name, i) {
        return None;
    }
    proof {
        lemma_first_char_from(v@, '>', i + 1 + name@.len());
    }
    let len = v.len();
    assert(i + 1 + name@.len() <= len);
    match find_char_from(v, '>', i + 1 + name.len()) {
        Some(g) => Some(g + 1),
        None => None,
    }
}

/// The first tag named `name` in `v` (`find_tag`).
pub fn find_tag_in(v: &[char], name: &[char]) -> (r: Option<Vec<char>>)
    ensures
        match r {
            Some(t) => find_tag(v@, name@) == Some(t@),
            None => find_tag(v@, name@) is None,
        },
{
    let mut i: usize = 0;
    while i < v.len()
        invariant
            i <= v@.len(),
            find_tag(v@, name@) == find_tag_from(v@, name@, i as int),
        decreases v.len() - i,
    {
        match tag_end_at(v, name, i) {
            Some(e) => {
                return Some(sub_chars(v, i, e));
            },
            None => {},
        }
        i = i + 1;
    }
    None
}

/// Computes [`xml_unescape`].
pub fn xml_unescape_chars(v: &[char]) -> (r: Vec<char>)
    ensures
        r@ == xml_unescape(v@),
{
    proof {
        reveal_strlit("&quot;");
        reveal_strlit("&apos;");
        reveal_strlit("&lt;");
        reveal_strlit("&gt;");
        reveal_strlit("&amp;");
    }
    let a = replace_chars(v, &literal("&quot;"), &literal("\""));
    let b = replace_chars(&a, &literal("&apos;"), &literal("'"));
    let c = replace_chars(&b, &literal("&lt;"), &literal("<"));
    let d = replace_chars(&c, &literal("&gt;"), &literal(">"));
    replace_chars(&d, &literal("&amp;"), &literal("&"))
}

/// Computes [`attr_span_at`].
fn attr_span_at_exec(t: &[char], name: &[char], i: usize) -> (r: Option<(usize, usize)>)
    ensures
        match r {
            Some(sp) => attr_span_at(t@, name@, i as int) == Some((sp.0 as int, sp.1 as int))
                && sp.0 <= sp.1 <= t@.len(),
            None => attr_span_at(t@, name@, i as int) is None,
        },
{
    if !is_boundary(t, i) || !chars_occur_at(t, name, i) {
        return None;
    }
    proof {
        lemma_skip_ws_from(t@, i + name@.len());
    }
    let len = t.len();
    assert(i + name@.len() <= len);
    let a = skip_ws(t, i + name.len());
    if a >= t.len() || t[a] != '=' {
        return None;
    }
    proof {
        lemma_skip_ws_from(t@, a + 1);
    }
    let b = skip_ws(t, a + 1);
    if b >= t.len() || t[b] != '"' {
        return None;
    }
    proof {
        lemma_first_char_from(t@, '"', b + 1);
    }
    match find_char_from(t, '"', b + 1) {
        Some(q) => Some((b + 1, q)),
        None => None,
    }
}

/// The decoded value of attribute `name` in the tag text `t` (`attr_value`).
pub fn attr_value_in(t: &[char], name: &[char]) -> (r: Option<Vec<char>>)
    ensures
        match r {
            Some(s) => attr_value(t@, name@) == Some(s@),
            None => attr_value(t@, name@) is None,
        },
{
    let mut i: usize = 0;
    while i < t.len()
        invariant
            i <= t@.len(),
            attr_span_from(t@, name@, 0) == attr_span_from(t@, name@, i as int),
        decreases t.len() - i,
    {
        match attr_span_at_exec(t, name, i) {
            Some(sp) => {
                let raw = sub_chars(t, sp.0, sp.1);
                return Some(xml_unescape_chars(&raw));
            },
            None => {},
        }
        i = i + 1;
    }
    None
}

/// The decoded text of the first `<cpe>` element, when not empty.
pub fn find_cpe_in(b: &[char]) -> (r: Option<Vec<char>>)
    ensures
        match r {
            Some(s) => find_cpe(b@) == Some(s@),
            None => find_cpe(b@) is None,
        },
{
    let open = literal("<cpe>");
    let close = literal("</cpe>");
    proof {
        reveal_strlit("<cpe>");
        reveal_strlit("</cpe>");
        lemma_first_occ_from(b@, "<cpe>"@, 0);
    }
    match find_seq_from(b, &open, 0) {
        Some(i) => {
            assert(occurs_at(b@, "<cpe>"@, i as int));
            let len = b.len();
            assert(i + 5 <= len);
            proof {
                lemma_first_occ_from(b@, "</cpe>"@, i + 5);
            }
            match find_seq_from(b, &close, i + 5) {
                Some(j) => {
                    let raw = sub_chars(b, i + 5, j);
                    let v = xml_unescape_chars(&raw);
                    if v.len() > 0 {
                        Some(v)
                    } else {
                        None
                    }
                },
                None => None,
            }
        },
        None => None,
    }
}

/// Computes [`port_block_end`].
fn port_block_end_at(v: &[char], port_name: &[char], close: &[char], i: usize) -> (r: Option<
    usize,
>)
    requires
        port_name@ == "port"@,
        close@ == "</port>"@,
    ensures
        match r {
            Some(e) => port_block_end(v@, i as int) == Some(e as int) && i < e <= v@.len(),
            None => port_block_end(v@, i as int) is None,
        },
{
    proof {
        lemma_port_block_end(v@, i as int);
    }
    match tag_end_at(v, port_name, i) {
        Some(g) => {
            proof {
                lemma_first_occ_from(v@, "</port>"@, g as int);
                reveal_strlit("</port>");
            }
            match find_seq_from(v, close, g) {
                Some(c) => {
                    assert(occurs_at(v@, "</port>"@, c as int));
                    let len = v.len();
                    assert(c + 7 <= len);
                    Some(c + 7)
                },
                None => None,
            }
        },
        None => None,
    }
}

/// Whether a port element is the one for TCP port `port`.
fn block_is_for_exec(b: &[char], port: u16) -> (r: bool)
    ensures
        r == block_is_for(b@, port),
{
    let protocol = attr_value_in(b, &literal("protocol"));
    let tcp = literal("tcp");
    let is_tcp = match &protocol {
        Some(p) => crate::text::chars_eq(p, &tcp),
        None => false,
    };
    if !is_tcp {
        return false;
    }
    let portid = attr_value_in(b, &literal("portid"));
    let digits = decimal_chars(port as u64);
    match &portid {
        Some(p) => crate::text::chars_eq(p, &digits),
        None => false,
    }
}

/// The element for TCP port `port` in the report, as `find_port_block`
/// describes it.
pub fn find_port_block_in(v: &[char], port: u16) -> (r: Option<Vec<char>>)
    ensures
        match r {
            Some(b) => find_port_block(v@, port) == Some(b@),
            None => find_port_block(v@, port) is None,
        },
{
    let port_name = literal("port");
    let close = literal("</port>");
    let mut p: usize = 0;
    while p < v.len()
        invariant
            p <= v@.len(),
            port_name@ == "port"@,
            close@ == "</port>"@,
            find_port_block(v@, port) == find_port_block_from(v@, port, p as int),
        decreases v.len() - p,
    {
        match port_block_end_at(v, &port_name, &close, p) {
            Some(e) => {
                let block = sub_chars(v, p, e);
                if block_is_for_exec(&block, port) {
                    return Some(block);
                }
                p = e;
            },
            None => {
                p = p + 1;
            },
        }
    }
    None
}

/// Appends `label=value` when the attribute is present and not empty.
fn push_attr(parts: &mut Vec<String>, label: &str, tag: &[char], attr: &str)
    ensures
        views(final(parts)@) == views(old(parts)@) + labeled(tag@, label@, attr@),
{
    let name = literal(attr);
    match attr_value_in(tag, &name) {
        Some(value) => {
            if value.len() > 0 {
                let text = String::from_str(label).concat("=").concat(string_of(&value).as_str());
                parts.push(text);
                proof {
                    assert(views(parts@) =~= views(old(parts)@).push(text@));
                }
            } else {
                assert(views(parts@) =~= views(old(parts)@) + Seq::<Seq<char>>::empty());
            }
        },
        None => {
            assert(views(parts@) =~= views(old(parts)@) + Seq::<Seq<char>>::empty());
        },
    }
}

/// The fingerprint of TCP port `port` in an nmap XML report: `None` when
/// the report has no element for that port.
pub fn parse_nmap_xml(xml: &str, port: u16) -> (r: Option<NmapFingerprint>)
    ensures
        match find_port_block(xml@, port) {
            Some(b) => r matches Some(f) && opt_view(f.service) == port_service(b)
                && opt_view(f.fingerprint) == Some(
                join_with(fingerprint_parts(b), "; "@),
            ),
            None => r is None,
        },
{
    let v = chars_of(xml);
    let block = match find_port_block_in(&v, port) {
        Some(b) => b,
        None => {
            return None;
        },
    };
    let state_tag = find_tag_in(&block, &literal("state"));
    let state = match &state_tag {
        Some(t) => match attr_value_in(t, &literal("state")) {
            Some(s) => s,
            None => literal("unknown"),
        },
        None => literal("unknown"),
    };
    let service_tag = find_tag_in(&block, &literal("service"));
    let service = match &service_tag {
        Some(t) => match attr_value_in(t, &literal("name")) {
            Some(s) => if s.len() > 0 {
                Some(string_of(&s))
            } else {
                None
            },
            None => None,
        },
        None => None,
    };
    let ghost b = block@;
    let mut parts: Vec<String> = Vec::new();
    parts.push(String::from_str("nmap_state=").concat(string_of(&state).as_str()));
    assert(views(parts@) =~= seq!["nmap_state="@ + port_state(b)]);
    match &service_tag {
        Some(t) => {
            push_attr(&mut parts, "service", t, "name");
            push_attr(&mut parts, "product", t, "product");
            push_attr(&mut parts, "version", t, "version");
            push_attr(&mut parts, "extrainfo", t, "extrainfo");
            push_attr(&mut parts, "ostype", t, "ostype");
            push_attr(&mut parts, "conf", t, "conf");
        },
        None => {},
    }
    let ghost middle = views(parts@);
    match find_cpe_in(&block) {
        Some(c) => {
            parts.push(String::from_str("cpe=").concat(string_of(&c).as_str()));
            assert(views(parts@) =~= middle.push("cpe="@ + c@));
        },
        None => {},
    }
    assert(opt_view(service) == port_service(b));
    assert(views(parts@) =~= fingerprint_parts(b));
    let fingerprint = join_strings(&parts, "; ");
    Some(NmapFingerprint { service, fingerprint: Some(fingerprint) })
}

} // verus!
