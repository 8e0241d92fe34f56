//! Finding JavaScript source maps that a site serves: which URLs are worth
//! a look, which map URLs a script points at, and when a response is a
//! source map.

use vstd::prelude::*;

use crate::db::sql::{opt_view, text_slot, written, fits, Exchange};
use crate::db::scans::{alert_template, VULNERABILITY_SQL};
use crate::db::Database;
use crate::error::{self, WatcherError};
use crate::search::{first_char_from, skip_ws_from, skip_ws, views};
use crate::string_set::{strictly_sorted, insert_string};
use crate::text::{
    ascii_lower, ends_with, is_ws, occurs_at, contains_seq, trim, chars_of, lower_chars,
    ends_with_chars, chars_occur_at, char_is_ws, sub_chars, trim_chars, string_of, str_contains,
};
use crate::urls::{url_path, url_joined, url_with_path, url_without_query, parsed_path, join_url, replace_path, drop_query};

verus! {

/// The first position at or after `p` that holds whitespace, or the
/// length of `s`.
pub open spec fn skip_nonws_from(s: Seq<char>, p: int) -> int
    decreases s.len() - p,
{
    if 0 <= p < s.len() && !is_ws(s[p]) {
        skip_nonws_from(s, p + 1)
    } else {
        p
    }
}

/// The bounds of the URL of a `//# sourceMappingURL=URL` comment (`#` or
/// `@`, optional whitespace) that starts at `i`.
pub open spec fn marker_span_at(s: Seq<char>, i: int) -> Option<(int, int)> {
    if occurs_at(s, "//"@, i) && i + 2 < s.len() && (s[i + 2] == '#' || s[i + 2] == '@') {
        let a = skip_ws_from(s, i + 3);
        if occurs_at(s, "sourceMappingURL="@, a) {
            let b = a + 17;
            let e = skip_nonws_from(s, b);
            if e > b {
                Some((b, e))
            } else {
                None
            }
        } else {
            None
        }
    } else {
        None
    }
}

/// The leftmost source-mapping comment at or after `i`.
pub open spec fn marker_span_from(s: Seq<char>, i: int) -> Option<(int, int)>
    decreases s.len() - i,
{
    if i < 0 || i >= s.len() {
        None
    } else {
        match marker_span_at(s, i) {
            Some(sp) => Some(sp),
            None => marker_span_from(s, i + 1),
        }
    }
}

/// The URL that the first source-mapping comment of a script names.
pub open spec fn source_mapping_marker(body: Seq<char>) -> Option<Seq<char>> {
    match marker_span_from(body, 0) {
        Some(sp) => Some(trim(body.subrange(sp.0, sp.1))),
        None => None,
    }
}

/// A response body has the keys of a source map.
pub open spec fn sourcemap_shaped(body: Seq<char>) -> bool {
    contains_seq(body, "\"version\""@) && contains_seq(body, "\"sources\""@) && (contains_seq(
        body,
        "\"mappings\""@,
    ) || contains_seq(body, "\"sourcesContent\""@))
}

/// A URL path names a script.
pub open spec fn is_script_path(path: Seq<char>) -> bool {
    ends_with(ascii_lower(path), ".js"@)
}

/// A URL path names a source map.
pub open spec fn is_map_path(path: Seq<char>) -> bool {
    ends_with(ascii_lower(path), ".js.map"@)
}

/// A URL is a script or a source map.
pub open spec fn sourcemap_input(url: Seq<char>) -> bool {
    match url_path(url) {
        Some(p) => is_script_path(p) || is_map_path(p),
        None => false,
    }
}

/// The map URL a script has by convention: its path with `.map` appended
/// and no query.
pub open spec fn conventional_map(url: Seq<char>) -> Option<Seq<char>> {
    match url_path(url) {
        Some(p) => if is_script_path(p) {
            match url_with_path(url, p + ".map"@) {
                Some(u) => url_without_query(u),
                None => None,
            }
        } else {
            None
        },
        None => None,
    }
}

/// Computes [`skip_nonws_from`].
fn skip_nonws(v: &[char], p: usize) -> (r: usize)
    ensures
        r as int == skip_nonws_from(v@, p as int),
{
    let mut i = p;
    while i < v.len() && !char_is_ws(v[i])
        invariant
            p <= i,
            skip_nonws_from(v@, p as int) == skip_nonws_from(v@, i as int),
        decreases v.len() - i,
    {
        i = i + 1;
    }
    i
}

/// Computes [`marker_span_at`].
fn marker_span_at_exec(v: &[char], slashes: &[char], key: &[char], i: usize) -> (r: Option<
    (usize, usize),
>)
    requires
        slashes@ == "//"@,
        key@ == "sourceMappingURL="@,
    ensures
        match r {
            Some(sp) => marker_span_at(v@, i as int) == Some((sp.0 as int, sp.1 as int)) && sp.0
                <= sp.1 <= v@.len(),
            None => marker_span_at(v@, i as int) is None,
        },
{
    proof {
        reveal_strlit("//");
        reveal_strlit("sourceMappingURL=");
    }
    if !chars_occur_at(v, slashes, i) {
        return None;
    }
    let len = v.len();
    if i + 2 >= len || !(v[i + 2] == '#' || v[i + 2] == '@') {
        return None;
    }
    proof {
        crate::search::lemma_skip_ws_from(v@, i + 3);
    }
    let a = skip_ws(v, i + 3);
    if !chars_occur_at(v, key, a) {
        return None;
    }
    assert(a + 17 <= len);
    let b = a + 17;
    let e = skip_nonws(v, b);
    proof {
        lemma_skip_nonws_from(v@, b as int);
    }
    if e > b {
        Some((b, e))
    } else {
        None
    }
}

/// Skipping a run of non-whitespace stays within the text.
proof fn lemma_skip_nonws_from(s: Seq<char>, p: int)
    requires
        0 <= p <= s.len(),
    ensures
        p <= skip_nonws_from(s, p) <= s.len(),
    decreases s.len() - p,
{
    if p < s.len() && !is_ws(s[p]) {
        lemma_skip_nonws_from(s, p + 1);
    }
}

/// The URL named by the first `//# sourceMappingURL=` comment of a script.
pub fn source_mapping_url(body: &str) -> (r: Option<String>)
    ensures
        opt_view(r) == source_mapping_marker(body@),
{
    let v = chars_of(body);
    let slashes = chars_of("//");
    let key = chars_of("sourceMappingURL=");
    let mut i: usize = 0;
    while i < v.len()
        invariant
            i <= v@.len(),
            v@ == body@,
            slashes@ == "//"@,
            key@ == "sourceMappingURL="@,
            marker_span_from(v@, 0) == marker_span_from(v@, i as int),
        decreases v.len() - i,
    {
        match marker_span_at_exec(&v, &slashes, &key, i) {
            Some(sp) => {
                let raw = sub_chars(&v, sp.0, sp.1);
                let t = trim_chars(&raw);
                return Some(string_of(&t));
            },
            None => {},
        }
        i = i + 1;
    }
    None
}

/// Whether a response body looks like a source map: it has `"version"`,
/// `"sources"`, and `"mappings"` or `"sourcesContent"`.
pub fn looks_like_sourcemap(body: &str) -> (b: bool)
    ensures
        b == sourcemap_shaped(body@),
{
    str_contains(body, "\"version\"") && str_contains(body, "\"sources\"") && (str_contains(
        body,
        "\"mappings\"",
    ) || str_contains(body, "\"sourcesContent\""))
}

/// Whether a URL path names a script.
fn script_path(path: &str) -> (b: bool)
    ensures
        b == is_script_path(path@),
{
    let lower = lower_chars(&chars_of(path));
    ends_with_chars(&lower, &chars_of(".js"))
}

/// Whether a URL path names a source map.
fn map_path(path: &str) -> (b: bool)
    ensures
        b == is_map_path(path@),
{
    let lower = lower_chars(&chars_of(path));
    ends_with_chars(&lower, &chars_of(".js.map"))
}

/// Whether a URL is worth checking for a source map: it parses and names a
/// script or a source map.
pub fn is_sourcemap_input_url(url: &str) -> (b: bool)
    ensures
        b == sourcemap_input(url@),
{
    match parsed_path(url) {
        Some(p) => script_path(p.as_str()) || map_path(p.as_str()),
        None => false,
    }
}

/// The map URL a script has by convention (`app.js` gives `app.js.map`,
/// without the query); `None` for what is not a script.
pub fn conventional_sourcemap_url(url: &str) -> (r: Option<String>)
    ensures
        opt_view(r) == conventional_map(url@),
{
    match parsed_path(url) {
        Some(p) => {
            if script_path(p.as_str()) {
                let with_map = p.concat(".map");
                match replace_path(url, with_map.as_str()) {
                    Some(u) => drop_query(u.as_str()),
                    None => None,
                }
            } else {
                None
            }
        },
        None => None,
    }
}

/// What a URL is, as far as source maps go.
#[derive(Debug, Clone, Copy, PartialEq, Eq)]
pub enum SourcemapInput {
    /// A source map itself.
    SourceMap,
    /// A script, which may point at its map.
    Script,
    /// Anything else.
    Other,
}

/// The map URLs worth requesting for one URL, and how many scripts were
/// seen and fetched to find them.
#[derive(Debug, Clone)]
pub struct SourcemapCandidates {
    pub candidates: Vec<String>,
    pub script_urls_seen: usize,
    pub script_urls_checked: usize,
}

/// The kind of a URL that parses.
pub open spec fn input_kind(path: Seq<char>) -> SourcemapInput {
    if is_map_path(path) {
        SourcemapInput::SourceMap
    } else if is_script_path(path) {
        SourcemapInput::Script
    } else {
        SourcemapInput::Other
    }
}

/// A path is a source map when it ends in `.js.map` and a script when it
/// ends in `.js` (ASCII case aside); no path is both, so a source map is
/// never taken for a script.
pub proof fn lemma_input_kinds(path: Seq<char>)
    ensures
        ends_with(ascii_lower(path), ".js.map"@) ==> input_kind(path) == SourcemapInput::SourceMap,
        ends_with(ascii_lower(path), ".js"@) ==> input_kind(path) == SourcemapInput::Script,
        !ends_with(ascii_lower(path), ".js.map"@) && !ends_with(ascii_lower(path), ".js"@) ==> input_kind(path)
            == SourcemapInput::Other,
        !(is_script_path(path) && is_map_path(path)),
{
    reveal_strlit(".js");
    reveal_strlit(".js.map");
    let l = ascii_lower(path);
    if ends_with(l, ".js.map"@) && ends_with(l, ".js"@) {
        assert(l[l.len() - 1] == ".js.map"@[6]);
        assert(l[l.len() - 1] == ".js"@[2]);
    }
}

/// Classifies a URL; an error when it does not parse.
pub fn sourcemap_input_kind(url: &str) -> (r: Result<SourcemapInput, WatcherError>)
    ensures
        match url_path(url@) {
            Some(p) => r == Ok::<SourcemapInput, WatcherError>(input_kind(p)),
            None => r matches Err(e) && e.is_invalid_with("invalid url"@),
        },
{
    match parsed_path(url) {
        Some(p) => {
            if map_path(p.as_str()) {
                Ok(SourcemapInput::SourceMap)
            } else if script_path(p.as_str()) {
                Ok(SourcemapInput::Script)
            } else {
                Ok(SourcemapInput::Other)
            }
        },
        None => Err(error::invalid("invalid url")),
    }
}

/// The candidate map URLs of a fetched script: the map its comment names,
/// resolved against the script URL, and the conventional map URL.
pub open spec fn script_candidates(url: Seq<char>, body: Seq<char>) -> Set<Seq<char>> {
    let from_marker = match source_mapping_marker(body) {
        Some(m) => match url_joined(url, m) {
            Some(j) => set![j],
            None => Set::empty(),
        },
        None => Set::empty(),
    };
    let conventional = match conventional_map(url) {
        Some(c) => set![c],
        None => Set::empty(),
    };
    from_marker + conventional
}

/// The candidates of one URL, given what fetching it as a script gave
/// back: `fetched` is the body (possibly empty) when a response came, and
/// `None` when the request failed or no request was made. A script is
/// fetched only when `max_js_files > 0`.
pub open spec fn candidates_are(
    c: SourcemapCandidates,
    url: Seq<char>,
    kind: SourcemapInput,
    max_js_files: usize,
    fetched: Option<Seq<char>>,
) -> bool {
    &&& strictly_sorted(views(c.candidates@))
    &&& match kind {
        SourcemapInput::SourceMap => views(c.candidates@) == seq![url] && c.script_urls_seen == 0
            && c.script_urls_checked == 0,
        SourcemapInput::Other => c.candidates@.len() == 0 && c.script_urls_seen == 0
            && c.script_urls_checked == 0,
        SourcemapInput::Script => {
            &&& c.script_urls_seen == 1
            &&& c.script_urls_checked == if max_js_files > 0 {
                1usize
            } else {
                0usize
            }
            &&& forall|t: Seq<char>| #[trigger] views(c.candidates@).contains(t) <==> (max_js_files
                > 0 && fetched is Some && script_candidates(url, fetched.unwrap()).contains(t))
        },
    }
}

/// The candidates collected for a script that was fetched (some script may
/// be fetched and a body came back): the conventional map URL, whenever
/// there is one, whatever the body holds; the map the body's
/// `sourceMappingURL` comment names, resolved against the script URL; and
/// nothing else.
pub proof fn lemma_fetched_script_candidates(
    c: SourcemapCandidates,
    url: Seq<char>,
    p: Seq<char>,
    max_js_files: usize,
    body: Seq<char>,
)
    requires
        url_path(url) == Some(p),
        is_script_path(p),
        !is_map_path(p),
        max_js_files > 0,
        candidates_are(c, url, input_kind(p), max_js_files, Some(body)),
    ensures
        conventional_map(url) matches Some(m) ==> views(c.candidates@).contains(m),
        source_mapping_marker(body) matches Some(mk) ==> (url_joined(url, mk) matches Some(j) ==> views(
            c.candidates@,
        ).contains(j)),
        forall|t: Seq<char>|
            #[trigger] views(c.candidates@).contains(t) ==> (conventional_map(url) == Some(t) || (source_mapping_marker(
                body,
            ) matches Some(mk) && url_joined(url, mk) == Some(t))),
        c.script_urls_seen == 1,
        c.script_urls_checked == 1,
{
    assert(input_kind(p) == SourcemapInput::Script);
    if let Some(m) = conventional_map(url) {
        assert(script_candidates(url, body).contains(m));
    }
    if let Some(mk) = source_mapping_marker(body) {
        if let Some(j) = url_joined(url, mk) {
            assert(script_candidates(url, body).contains(j));
        }
    }
}

/// Without a body to read (no script may be fetched, or the request
/// failed), a script has no candidates; a source map is its own only
/// candidate.
pub proof fn lemma_candidates_without_body(
    c: SourcemapCandidates,
    url: Seq<char>,
    p: Seq<char>,
    max_js_files: usize,
    fetched: Option<Seq<char>>,
)
    requires
        url_path(url) == Some(p),
        candidates_are(c, url, input_kind(p), max_js_files, fetched),
    ensures
        is_map_path(p) ==> views(c.candidates@) == seq![url],
        !is_map_path(p) && (max_js_files == 0 || fetched is None) ==> c.candidates@.len() == 0,
{
    if !is_map_path(p) && (max_js_files == 0 || fetched is None) && is_script_path(p) {
        if c.candidates@.len() > 0 {
            assert(views(c.candidates@)[0] == c.candidates@[0]@);
            assert(views(c.candidates@).contains(c.candidates@[0]@));
        }
    }
}

/// Collects the map URLs to request for one URL.
pub fn collect_sourcemap_candidates(url: &str, max_js_files: usize, fetched: Option<String>) -> (r:
    Result<SourcemapCandidates, WatcherError>)
    ensures
        match url_path(url@) {
            Some(p) => r matches Ok(c) && candidates_are(c, url@, input_kind(p), max_js_files, opt_view(fetched)),
            None => r matches Err(e) && e.is_invalid_with("invalid url"@),
        },
{
    let kind = sourcemap_input_kind(url)?;
    let mut candidates: Vec<String> = Vec::new();
    match kind {
        SourcemapInput::SourceMap => {
            candidates.push(String::from_str(url));
            assert(views(candidates@) =~= seq![url@]);
            return Ok(SourcemapCandidates { candidates, script_urls_seen: 0, script_urls_checked: 0 });
        },
        SourcemapInput::Other => {
            return Ok(SourcemapCandidates { candidates, script_urls_seen: 0, script_urls_checked: 0 });
        },
        SourcemapInput::Script => {},
    }
    if max_js_files == 0 {
        return Ok(SourcemapCandidates { candidates, script_urls_seen: 1, script_urls_checked: 0 });
    }
    match fetched {
        Some(body) => {
            let ghost b = body@;
            match source_mapping_url(body.as_str()) {
                Some(marker) => {
                    match join_url(url, marker.as_str()) {
                        Some(joined) => {
                            candidates = insert_string(candidates, joined);
                        },
                        None => {},
                    }
                },
                None => {},
            }
            match conventional_sourcemap_url(url) {
                Some(map_url) => {
                    candidates = insert_string(candidates, map_url);
                },
                None => {},
            }
            assert forall|t: Seq<char>| #[trigger] views(candidates@).contains(t) <==> script_candidates(url@, b).contains(t) by {
            }
        },
        None => {},
    }
    Ok(SourcemapCandidates { candidates, script_urls_seen: 1, script_urls_checked: 1 })
}

impl SourcemapCandidates {
    /// The first `max` candidates, in order.
    pub fn to_check(&self, max: usize) -> (r: Vec<String>)
        ensures
            views(r@) == views(self.candidates@).take(
                if max < self.candidates@.len() {
                    max as int
                } else {
                    self.candidates@.len() as int
                },
            ),
    {
        let mut r: Vec<String> = Vec::new();
        let mut i: usize = 0;
        while i < self.candidates.len() && i < max
            invariant
                i <= self.candidates@.len(),
                i <= max,
                views(r@) == views(self.candidates@).take(i as int),
            decreases self.candidates.len() - i,
        {
            let c = self.candidates[i].clone();
            let ghost before = r@;
            r.push(c);
            proof {
                assert(r@ == before.push(c));
                assert(views(r@) =~= views(before).push(c@));
                assert(views(self.candidates@).take(i + 1) =~= views(self.candidates@).take(
                    i as int,
                ).push(self.candidates@[i as int]@));
            }
            i = i + 1;
        }
        r
    }
}

/// Counters of one URL's source-map check.
#[derive(Debug, Clone, Copy, Default, PartialEq, Eq)]
pub struct SourcemapScanStats {
    pub script_urls_seen: usize,
    pub script_urls_checked: usize,
    pub map_candidates_checked: usize,
    pub findings: usize,
}

/// A response exposes a source map: it succeeded and its body has the
/// shape of one.
pub open spec fn exposes_sourcemap(response: Option<(bool, Seq<char>)>) -> bool {
    match response {
        Some((success, body)) => success && sourcemap_shaped(body),
        None => false,
    }
}

/// Records the outcome of requesting one candidate map URL: `response` is
/// whether the status was a success together with the body, or `None` when
/// the request failed. An exposed map becomes a `medium`
/// `webpack_sourcemap_disclosure` finding and alert of the system.
pub fn check_sourcemap_candidate(
    db: &Database,
    batch_id: &str,
    system_id: &str,
    map_url: &str,
    response: Option<(bool, String)>,
    stats: &mut SourcemapScanStats,
) -> (r: Result<(), WatcherError>)
    requires
        old(stats).map_candidates_checked < usize::MAX,
        old(stats).findings < usize::MAX,
    ensures
        final(stats).map_candidates_checked == old(stats).map_candidates_checked + 1,
        final(stats).script_urls_seen == old(stats).script_urls_seen,
        final(stats).script_urls_checked == old(stats).script_urls_checked,
        r is Ok ==> final(stats).findings == old(stats).findings + if exposes_sourcemap(
            match response {
                Some((s, b)) => Some((s, b@)),
                None => None,
            },
        ) {
            1usize
        } else {
            0usize
        },
        r matches Err(e) ==> e.is_storage() || e is Invalid,
        r is Ok && exposes_sourcemap(
            match response {
                Some((s, b)) => Some((s, b@)),
                None => None,
            },
        ) ==> written(db.spec_path(), 
            (VULNERABILITY_SQL@, seq![
                None,
                text_slot(batch_id@),
                text_slot(system_id@),
                text_slot(map_url@),
                text_slot("webpack_sourcemap_disclosure"@),
                text_slot("medium"@),
                text_slot("JavaScript source map file is accessible"@),
                None,
            ]),
        ) && exists|x: Exchange|
            x.on() == db.spec_path() && fits(#[trigger] x.handed(), alert_template(batch_id@, Some(system_id@), "vulnerability"@, "medium"@,
                map_url@, None, Some("webpack_sourcemap_disclosure"@), None)),
{
    stats.map_candidates_checked = stats.map_candidates_checked + 1;
    let exposed = match &response {
        Some((success, body)) => *success && looks_like_sourcemap(body.as_str()),
        None => false,
    };
    if exposed {
        stats.findings = stats.findings + 1;
        db.add_vulnerability(
            batch_id,
            system_id,
            map_url,
            "webpack_sourcemap_disclosure",
            "medium",
            "JavaScript source map file is accessible",
        )?;
        db.add_alert(
            batch_id,
            Some(system_id),
            "vulnerability",
            "medium",
            map_url,
            None,
            Some("webpack_sourcemap_disclosure"),
            None,
        )?;
    }
    Ok(())
}

} // verus!
