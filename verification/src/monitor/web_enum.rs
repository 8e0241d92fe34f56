//! Web path enumeration: scoring responses, the base URLs of a web
//! service, and the links worth following that a page mentions.
//!
//! Links are read the way the case-insensitive pattern
//! `(?:src|href)\s*=\s*["']([^"']+)["']|["']((?:/[a-zA-Z0-9_./-]+|[a-zA-Z0-9_./-]+\.(?:js|html|json|action|do)))["']`
//! finds them, one after another, leftmost first.

use vstd::prelude::*;

use crate::db::sql::{opt_view, text_slot, written};
use crate::db::assets::url_upserted;
use crate::db::batches::{WORK_DONE_SQL, WORK_QUEUE_SQL};
use crate::db::Database;
use crate::error::{self, WatcherError};
use crate::models::PortAsset;
use crate::search::{skip_ws_from, skip_ws, views, lemma_skip_ws_from};
use crate::string_set::{strictly_sorted, insert_string};
use crate::text::{
    contains_seq, starts_with, decimal, lower_char, chars_of, str_contains, str_eq, string_of,
    sub_chars, decimal_string, starts_with_chars, to_lower_char,
};
use crate::urls::{url_serialization, url_joined, parse_url, join_url};

verus! {

/// The value of a response: nothing when its body holds one of the
/// negative markers, else by status (200: 50, 401/403: 80, redirects: 30,
/// 204: 20, anything else: 0).
pub open spec fn score_of(status: u16, body: Seq<char>, markers: Seq<Seq<char>>) -> i64 {
    if exists|k: int| 0 <= k < markers.len() && contains_seq(body, #[trigger] markers[k]) {
        0
    } else if status == 200 {
        50
    } else if status == 401 || status == 403 {
        80
    } else if status == 301 || status == 302 || status == 307 || status == 308 {
        30
    } else if status == 204 {
        20
    } else {
        0
    }
}

/// Scores a response; a body with a negative marker (a gateway answering
/// 200 for a missing page) is worth nothing.
pub fn value_score(status: u16, body: &str, negative_markers: &Vec<String>) -> (r: i64)
    ensures
        r == score_of(status, body@, views(negative_markers@)),
{
    let mut k: usize = 0;
    while k < negative_markers.len()
        invariant
            k <= negative_markers@.len(),
            forall|j: int| 0 <= j < k ==> !contains_seq(body@, #[trigger] views(negative_markers@)[j]),
        decreases negative_markers.len() - k,
    {
        if str_contains(body, negative_markers[k].as_str()) {
            assert(contains_seq(body@, views(negative_markers@)[k as int]));
            return 0;
        }
        k = k + 1;
    }
    if status == 200 {
        50
    } else if status == 401 || status == 403 {
        80
    } else if status == 301 || status == 302 || status == 307 || status == 308 {
        30
    } else if status == 204 {
        20
    } else {
        0
    }
}

/// How responses are scored: a body holding any negative marker is worth
/// nothing whatever the status; otherwise 401 and 403 score 80, 200 scores
/// 50, each of the redirects 301, 302, 307 and 308 scores 30, 204 scores
/// 20, and every other status 0. So a redirect is worth recording, less
/// than a page, and the same whichever redirect it is.
pub proof fn lemma_score_table(status: u16, body: Seq<char>, markers: Seq<Seq<char>>)
    ensures
        (exists|k: int| 0 <= k < markers.len() && contains_seq(body, #[trigger] markers[k])) ==> score_of(
            status,
            body,
            markers,
        ) == 0,
        (forall|k: int| 0 <= k < markers.len() ==> !contains_seq(body, #[trigger] markers[k])) ==> {
            &&& (status == 401 || status == 403) ==> score_of(status, body, markers) == 80
            &&& status == 200 ==> score_of(status, body, markers) == 50
            &&& (status == 301 || status == 302 || status == 307 || status == 308) ==> score_of(status, body, markers) == 30
            &&& status == 204 ==> score_of(status, body, markers) == 20
            &&& !(status == 200 || status == 204 || status == 301 || status == 302 || status == 307 || status == 308
                || status == 401 || status == 403) ==> score_of(status, body, markers) == 0
        },
        0 <= score_of(status, body, markers) <= 80,
{
}

/// All four redirect statuses score alike, and above nothing, for any body
/// and markers.
pub proof fn lemma_redirects_score_alike(s1: u16, s2: u16, body: Seq<char>, markers: Seq<Seq<char>>)
    requires
        s1 == 301 || s1 == 302 || s1 == 307 || s1 == 308,
        s2 == 301 || s2 == 302 || s2 == 307 || s2 == 308,
    ensures
        score_of(s1, body, markers) == score_of(s2, body, markers),
        (forall|k: int| 0 <= k < markers.len() ==> !contains_seq(body, #[trigger] markers[k])) ==> score_of(
            s1,
            body,
            markers,
        ) > 0,
{
}

/// The text of the base URL of a service: the port is left out when it is
/// the default one of the scheme.
pub open spec fn base_url_text(scheme: Seq<char>, host: Seq<char>, port: u16) -> Seq<char> {
    if (scheme == "http"@ && port == 80) || (scheme == "https"@ && port == 443) {
        scheme + "://"@ + host + "/"@
    } else {
        scheme + "://"@ + host + ":"@ + decimal(port as nat) + "/"@
    }
}

/// The base URL of a service as the URL parser writes it; an error when it
/// does not parse.
pub fn host_base_url(scheme: &str, host: &str, port: u16) -> (r: Result<String, WatcherError>)
    ensures
        match url_serialization(base_url_text(scheme@, host@, port)) {
            Some(u) => r matches Ok(s) && s@ == u,
            None => r matches Err(e) && e.is_invalid_with("invalid url"@),
        },
{
    let default_port = (str_eq(scheme, "http") && port == 80) || (str_eq(scheme, "https") && port
        == 443);
    let text = if default_port {
        String::from_str(scheme).concat("://").concat(host).concat("/")
    } else {
        String::from_str(scheme).concat("://").concat(host).concat(":").concat(
            decimal_string(port as u64).as_str(),
        ).concat("/")
    };
    match parse_url(text.as_str()) {
        Some(u) => Ok(u),
        None => Err(error::invalid("invalid url")),
    }
}

/// The base URLs of a web service: one on its IP (`127.0.0.1` when it has
/// none) and one on each domain of its system, with its scheme (`http`
/// when it has none), distinct and in order.
/// The scheme a service is addressed with: its own, `http` when it has none.
pub open spec fn service_scheme(service: PortAsset) -> Seq<char> {
    match service.scheme {
        Some(s) => s@,
        None => "http"@,
    }
}

/// The host of a service's own base URL: its IP, `127.0.0.1` when it has none.
pub open spec fn service_host(service: PortAsset) -> Seq<char> {
    match service.ip {
        Some(i) => i@,
        None => "127.0.0.1"@,
    }
}

/// `t` is the base URL of the service on some host.
pub open spec fn is_service_base(service: PortAsset, t: Seq<char>) -> bool {
    exists|host: Seq<char>| url_serialization(#[trigger] base_url_text(service_scheme(service), host, service.port)) == Some(t)
}

/// The domain rows SQLite answered on `db` to the listing of the domains of
/// the system.
pub open spec fn domains_listed(db: Seq<char>, system_id: Seq<char>, domains: Seq<crate::models::DomainAsset>) -> bool {
    exists|x: crate::db::sql::Exchange|
        x.on() == db && #[trigger] x.handed() == (crate::db::lists::LIST_DOMAINS_FOR_SYSTEM_SQL@, seq![
            crate::db::sql::Param::Text(system_id),
        ]) && domains.len() == x.reply().len() && forall|i: int|
            0 <= i < domains.len() ==> crate::db::helpers::domain_from_row(x.reply()[i]@, #[trigger] domains[i])
}

/// The base URLs of a service, one for its address and one for every name
/// of its system, without repeats and in order.
pub fn service_base_urls(db: &Database, service: &PortAsset) -> (r: Result<Vec<String>, WatcherError>)
    ensures
        r matches Ok(v) ==> exists|domains: Seq<crate::models::DomainAsset>|
            #[trigger] domains_listed(db.spec_path(), service.system_id@, domains) && forall|t: Seq<char>|
                #[trigger] views(v@).contains(t) <==> (url_serialization(
                    base_url_text(service_scheme(*service), service_host(*service), service.port),
                ) == Some(t) || exists|k: int|
                    0 <= k < domains.len() && url_serialization(
                        base_url_text(service_scheme(*service), (#[trigger] domains[k]).name@, service.port),
                    ) == Some(t)),
        r matches Ok(v) ==> strictly_sorted(views(v@)),
        r matches Err(e) ==> e.is_storage() || e.is_invalid_with("invalid url"@),
        url_serialization(base_url_text(service_scheme(*service), service_host(*service), service.port)) is None
            ==> (r matches Err(e) && e.is_invalid_with("invalid url"@)),
        r matches Ok(v) ==> url_serialization(base_url_text(service_scheme(*service), service_host(*service), service.port))
            matches Some(u) && views(v@).contains(u),
        r matches Ok(v) ==> forall|t: Seq<char>| #[trigger] views(v@).contains(t) ==> is_service_base(*service, t),
{
    let scheme = match &service.scheme {
        Some(s) => s.as_str(),
        None => "http",
    };
    let ip = match &service.ip {
        Some(i) => i.as_str(),
        None => "127.0.0.1",
    };
    let mut values: Vec<String> = Vec::new();
    let own = host_base_url(scheme, ip, service.port)?;
    let ghost own_view = own@;
    assert(views(values@) =~= Seq::<Seq<char>>::empty());
    values = insert_string(values, own);
    assert(url_serialization(base_url_text(service_scheme(*service), service_host(*service), service.port)) == Some(own_view));
    let domains = db.list_domains_for_system(service.system_id.as_str())?;
    assert(domains_listed(db.spec_path(), service.system_id@, domains@));
    let mut i: usize = 0;
    while i < domains.len()
        invariant
            i <= domains@.len(),
            forall|t: Seq<char>|
                #[trigger] views(values@).contains(t) <==> (t == own_view || exists|k: int|
                    0 <= k < i && url_serialization(
                        base_url_text(service_scheme(*service), (#[trigger] domains@[k]).name@, service.port),
                    ) == Some(t)),
            strictly_sorted(views(values@)),
            url_serialization(base_url_text(service_scheme(*service), service_host(*service), service.port)) == Some(own_view),
            views(values@).contains(own_view),
            forall|t: Seq<char>| #[trigger] views(values@).contains(t) ==> is_service_base(*service, t),
            scheme@ == service_scheme(*service),
        decreases domains.len() - i,
    {
        let u = host_base_url(scheme, domains[i].name.as_str(), service.port)?;
        let ghost host = domains@[i as int].name@;
        assert(url_serialization(base_url_text(service_scheme(*service), host, service.port)) == Some(u@));
        values = insert_string(values, u);
        i = i + 1;
    }
    Ok(values)
}

/// `c` matches the lower-case ASCII letter `letter` without regard to case,
/// as Unicode simple case folding has it (`ſ` folds to `s`, the Kelvin sign
/// to `k`).
pub open spec fn folds_to(c: char, letter: char) -> bool {
    lower_char(c) == letter || (letter == 's' && c == '\u{17F}') || (letter == 'k' && c
        == '\u{212A}')
}

/// The lower-case ASCII word `word` occurs at `i` without regard to case.
pub open spec fn word_at_ci(s: Seq<char>, word: Seq<char>, i: int) -> bool {
    0 <= i && i + word.len() <= s.len() && forall|k: int|
        0 <= k < word.len() ==> folds_to(#[trigger] s[i + k], word[k])
}

/// A character of the path class `[a-zA-Z0-9_./-]`, case-folded.
pub open spec fn is_path_char(c: char) -> bool {
    ('a' <= c && c <= 'z') || ('A' <= c && c <= 'Z') || ('0' <= c && c <= '9') || c == '_' || c
        == '.' || c == '/' || c == '-' || c == '\u{17F}' || c == '\u{212A}'
}

/// A quote, single or double.
pub open spec fn is_quote(c: char) -> bool {
    c == '"' || c == '\''
}

/// The end of the run of path characters that starts at `p`.
pub open spec fn path_run_end(s: Seq<char>, p: int) -> int
    decreases s.len() - p,
{
    if 0 <= p < s.len() && is_path_char(s[p]) {
        path_run_end(s, p + 1)
    } else {
        p
    }
}

/// The first quote at or after `p`.
pub open spec fn next_quote(s: Seq<char>, p: int) -> Option<int>
    decreases s.len() - p,
{
    if p < 0 || p >= s.len() {
        None
    } else if is_quote(s[p]) {
        Some(p)
    } else {
        next_quote(s, p + 1)
    }
}

/// The run `s[a..r]` ends with `.` and one of the extensions, after at
/// least one character.
pub open spec fn ends_with_extension(s: Seq<char>, a: int, r: int) -> bool {
    ||| (r - 4 >= a + 1 && s[r - 4] == '.' && word_at_ci(s, "html"@, r - 4 + 1))
    ||| (r - 3 >= a + 1 && s[r - 3] == '.' && word_at_ci(s, "js"@, r - 3 + 1))
    ||| (r - 5 >= a + 1 && s[r - 5] == '.' && word_at_ci(s, "json"@, r - 5 + 1))
    ||| (r - 7 >= a + 1 && s[r - 7] == '.' && word_at_ci(s, "action"@, r - 7 + 1))
    ||| (r - 3 >= a + 1 && s[r - 3] == '.' && word_at_ci(s, "do"@, r - 3 + 1))
}

/// An attribute link `src="..."` or `href='...'` at `i`: the bounds of the
/// value and the end of the match.
pub open spec fn attribute_link_at(s: Seq<char>, i: int) -> Option<(int, int, int)> {
    let w = if word_at_ci(s, "src"@, i) {
        i + 3
    } else if word_at_ci(s, "href"@, i) {
        i + 4
    } else {
        -1
    };
    if w < 0 {
        None
    } else {
        let a = skip_ws_from(s, w);
        if a < s.len() && s[a] == '=' {
            let b = skip_ws_from(s, a + 1);
            if b < s.len() && is_quote(s[b]) {
                match next_quote(s, b + 1) {
                    Some(e) => if e > b + 1 {
                        Some((b + 1, e, e + 1))
                    } else {
                        None
                    },
                    None => None,
                }
            } else {
                None
            }
        } else {
            None
        }
    }
}

/// A quoted path link at `i`: an absolute path, or a relative path ending
/// in one of the extensions.
pub open spec fn quoted_link_at(s: Seq<char>, i: int) -> Option<(int, int, int)> {
    if 0 <= i < s.len() && is_quote(s[i]) {
        let r = path_run_end(s, i + 1);
        if r < s.len() && is_quote(s[r]) && ((i + 1 < s.len() && s[i + 1] == '/' && r >= i + 3)
            || ends_with_extension(s, i + 1, r)) {
            Some((i + 1, r, r + 1))
        } else {
            None
        }
    } else {
        None
    }
}

/// The link the pattern matches at `i`, if any.
pub open spec fn link_at(s: Seq<char>, i: int) -> Option<(int, int, int)> {
    match attribute_link_at(s, i) {
        Some(m) => Some(m),
        None => quoted_link_at(s, i),
    }
}

/// The links of `s` from `i` on, in the order the pattern finds them.
pub open spec fn links_from(s: Seq<char>, i: int) -> Seq<Seq<char>>
    decreases s.len() - i,
{
    if i < 0 || i >= s.len() {
        Seq::empty()
    } else {
        match link_at(s, i) {
            Some(m) => {
                proof {
                    lemma_link_at(s, i);
                }
                seq![s.subrange(m.0, m.1)] + links_from(s, m.2)
            },
            None => links_from(s, i + 1),
        }
    }
}

/// The URL a link leads to from `base`, when it is worth following: not a
/// `javascript:` link or a fragment, resolvable, and with a scheme that
/// begins with `http` (the scheme begins the serialization and holds no
/// `:`, so that is where `http` is looked for).
pub open spec fn followed_link(base: Seq<char>, link: Seq<char>) -> Option<Seq<char>> {
    if starts_with(link, "javascript:"@) || starts_with(link, "#"@) {
        None
    } else {
        match url_joined(base, link) {
            Some(u) => if starts_with(u, "http"@) {
                Some(u)
            } else {
                None
            },
            None => None,
        }
    }
}

/// Which links are followed: never a `javascript:` link or a fragment;
/// every other link that resolves against the page to an `http`/`https`
/// URL, as that URL; nothing that resolves elsewhere.
pub proof fn lemma_followed_links(base: Seq<char>, link: Seq<char>)
    ensures
        starts_with(link, "javascript:"@) ==> followed_link(base, link) is None,
        starts_with(link, "#"@) ==> followed_link(base, link) is None,
        followed_link(base, link) matches Some(u) ==> starts_with(u, "http"@) && url_joined(base, link) == Some(u),
        !starts_with(link, "javascript:"@) && !starts_with(link, "#"@) ==> (url_joined(base, link) matches Some(u)
            ==> (starts_with(u, "http"@) ==> followed_link(base, link) == Some(u))),
{
}

/// A base URL names the port only when it is not the scheme's default:
/// 80 for `http`, 443 for `https`.
pub proof fn lemma_base_url_port(scheme: Seq<char>, host: Seq<char>, port: u16)
    ensures
        (scheme == "http"@ && port == 80) || (scheme == "https"@ && port == 443) ==> base_url_text(scheme, host, port)
            == scheme + "://"@ + host + "/"@,
        !((scheme == "http"@ && port == 80) || (scheme == "https"@ && port == 443)) ==> base_url_text(
            scheme,
            host,
            port,
        ) == scheme + "://"@ + host + ":"@ + decimal(port as nat) + "/"@,
{
}

/// A match lies after its start and inside the text.
pub proof fn lemma_link_at(s: Seq<char>, i: int)
    ensures
        match link_at(s, i) {
            Some(m) => i < m.0 <= m.1 < m.2 <= s.len() && m.1 < s.len(),
            None => true,
        },
{
    match attribute_link_at(s, i) {
        Some(m) => {
            let w = if word_at_ci(s, "src"@, i) {
                i + 3
            } else {
                i + 4
            };
            lemma_skip_ws_from(s, w);
            let a = skip_ws_from(s, w);
            lemma_skip_ws_from(s, a + 1);
            let b = skip_ws_from(s, a + 1);
            lemma_next_quote(s, b + 1);
        },
        None => {
            if 0 <= i < s.len() && is_quote(s[i]) {
                lemma_path_run_end(s, i + 1);
            }
        },
    }
}

/// A found quote lies at or after the search start.
proof fn lemma_next_quote(s: Seq<char>, p: int)
    ensures
        match next_quote(s, p) {
            Some(q) => p <= q < s.len() && is_quote(s[q]),
            None => true,
        },
    decreases s.len() - p,
{
    if 0 <= p < s.len() && !is_quote(s[p]) {
        lemma_next_quote(s, p + 1);
    }
}

/// A run of path characters ends at or after where it starts.
proof fn lemma_path_run_end(s: Seq<char>, p: int)
    ensures
        path_run_end(s, p) >= p,
        0 <= p <= s.len() ==> path_run_end(s, p) <= s.len(),
    decreases s.len() - p,
{
    if 0 <= p < s.len() && is_path_char(s[p]) {
        lemma_path_run_end(s, p + 1);
    }
}

/// Decides [`folds_to`].
fn char_folds_to(c: char, letter: char) -> (b: bool)
    ensures
        b == folds_to(c, letter),
{
    to_lower_char(c) == letter || (letter == 's' && c == '\u{17F}') || (letter == 'k' && c
        == '\u{212A}')
}

/// Decides [`word_at_ci`].
fn word_at_ci_exec(v: &[char], word: &[char], i: usize) -> (b: bool)
    ensures
        b == word_at_ci(v@, word@, i as int),
{
    if i > v.len() || word.len() > v.len() - i {
        return false;
    }
    let n = v.len();
    let mut k: usize = 0;
    while k < word.len()
        invariant
            k <= word@.len(),
            n == v@.len(),
            i + word@.len() <= v@.len(),
            forall|m: int| 0 <= m < k ==> folds_to(#[trigger] v@[i + m], word@[m]),
        decreases word.len() - k,
    {
        if !char_folds_to(v[i + k], word[k]) {
            return false;
        }
        k = k + 1;
    }
    true
}

/// Decides [`is_path_char`].
fn path_char(c: char) -> (b: bool)
    ensures
        b == is_path_char(c),
{
    ('a' <= c && c <= 'z') || ('A' <= c && c <= 'Z') || ('0' <= c && c <= '9') || c == '_' || c
        == '.' || c == '/' || c == '-' || c == '\u{17F}' || c == '\u{212A}'
}

/// Computes [`path_run_end`].
fn path_run(v: &[char], p: usize) -> (r: usize)
    ensures
        r as int == path_run_end(v@, p as int),
{
    let mut i = p;
    while i < v.len() && path_char(v[i])
        invariant
            p <= i,
            path_run_end(v@, p as int) == path_run_end(v@, i as int),
        decreases v.len() - i,
    {
        i = i + 1;
    }
    i
}

/// Finds [`next_quote`].
fn find_quote(v: &[char], p: usize) -> (r: Option<usize>)
    ensures
        match r {
            Some(q) => next_quote(v@, p as int) == Some(q as int),
            None => next_quote(v@, p as int) is None,
        },
{
    let mut i = p;
    while i < v.len()
        invariant
            p <= i,
            next_quote(v@, p as int) == next_quote(v@, i as int),
        decreases v.len() - i,
    {
        if v[i] == '"' || v[i] == '\'' {
            return Some(i);
        }
        i = i + 1;
    }
    None
}

/// The lower-case words the pattern looks for.
struct Words {
    src: Vec<char>,
    href: Vec<char>,
    html: Vec<char>,
    js: Vec<char>,
    json: Vec<char>,
    action: Vec<char>,
    dos: Vec<char>,
}

impl Words {
    spec fn valid(&self) -> bool {
        &&& self.src@ == "src"@
        &&& self.href@ == "href"@
        &&& self.html@ == "html"@
        &&& self.js@ == "js"@
        &&& self.json@ == "json"@
        &&& self.action@ == "action"@
        &&& self.dos@ == "do"@
    }

    fn new() -> (w: Self)
        ensures
            w.valid(),
    {
        Words {
            src: chars_of("src"),
            href: chars_of("href"),
            html: chars_of("html"),
            js: chars_of("js"),
            json: chars_of("json"),
            action: chars_of("action"),
            dos: chars_of("do"),
        }
    }
}

/// Decides [`ends_with_extension`].
fn extension_end(v: &[char], w: &Words, a: usize, r: usize) -> (b: bool)
    requires
        w.valid(),
        r <= v@.len(),
    ensures
        b == ends_with_extension(v@, a as int, r as int),
{
    proof {
        reveal_strlit("html");
        reveal_strlit("js");
        reveal_strlit("json");
        reveal_strlit("action");
        reveal_strlit("do");
    }
    let html = r >= 4 && r - 4 > a && v[r - 4] == '.' && word_at_ci_exec(v, &w.html, r - 3);
    let js = r >= 3 && r - 3 > a && v[r - 3] == '.' && word_at_ci_exec(v, &w.js, r - 2);
    let json = r >= 5 && r - 5 > a && v[r - 5] == '.' && word_at_ci_exec(v, &w.json, r - 4);
    let action = r >= 7 && r - 7 > a && v[r - 7] == '.' && word_at_ci_exec(v, &w.action, r - 6);
    let dos = r >= 3 && r - 3 > a && v[r - 3] == '.' && word_at_ci_exec(v, &w.dos, r - 2);
    html || js || json || action || dos
}

/// Computes [`link_at`].
fn link_at_exec(v: &[char], w: &Words, i: usize) -> (r: Option<(usize, usize, usize)>)
    requires
        w.valid(),
        i < v@.len(),
    ensures
        match r {
            Some(m) => link_at(v@, i as int) == Some((m.0 as int, m.1 as int, m.2 as int)),
            None => link_at(v@, i as int) is None,
        },
{
    proof {
        reveal_strlit("src");
        reveal_strlit("href");
        lemma_link_at(v@, i as int);
    }
    let len = v.len();
    let word_end: Option<usize> = if word_at_ci_exec(v, &w.src, i) {
        Some(i + 3)
    } else if word_at_ci_exec(v, &w.href, i) {
        Some(i + 4)
    } else {
        None
    };
    match word_end {
        Some(we) => {
            proof {
                lemma_skip_ws_from(v@, we as int);
            }
            let a = skip_ws(v, we);
            if a < len && v[a] == '=' {
                proof {
                    lemma_skip_ws_from(v@, a + 1);
                }
                let b = skip_ws(v, a + 1);
                if b < len && (v[b] == '"' || v[b] == '\'') {
                    proof {
                        lemma_next_quote(v@, b + 1);
                    }
                    match find_quote(v, b + 1) {
                        Some(e) => {
                            if e > b + 1 {
                                return Some((b + 1, e, e + 1));
                            }
                        },
                        None => {},
                    }
                }
            }
        },
        None => {},
    }
    if v[i] == '"' || v[i] == '\'' {
        proof {
            lemma_path_run_end(v@, i + 1);
        }
        let r = path_run(v, i + 1);
        if r < len && (v[r] == '"' || v[r] == '\'') {
            let absolute = i + 1 < len && v[i + 1] == '/' && r >= i + 3;
            if absolute || extension_end(v, w, i + 1, r) {
                return Some((i + 1, r, r + 1));
            }
        }
    }
    None
}

/// The URLs worth following that a page links to, resolved against the
/// page's URL `base`, distinct and in order.
pub fn extract_interesting_paths(body: &str, base: &str) -> (r: Vec<String>)
    ensures
        strictly_sorted(views(r@)),
        forall|t: Seq<char>| #[trigger] views(r@).contains(t) <==> exists|k: int|
            0 <= k < links_from(body@, 0).len() && followed_link(base@, #[trigger] links_from(body@, 0)[k])
                == Some(t),
{
    let v = chars_of(body);
    let w = Words::new();
    let javascript = chars_of("javascript:");
    let hash = chars_of("#");
    let mut values: Vec<String> = Vec::new();
    let mut i: usize = 0;
    let ghost mut seen: Seq<Seq<char>> = Seq::empty();
    while i < v.len()
        invariant
            i <= v@.len(),
            v@ == body@,
            w.valid(),
            javascript@ == "javascript:"@,
            hash@ == "#"@,
            links_from(v@, 0) == seen + links_from(v@, i as int),
            strictly_sorted(views(values@)),
            forall|t: Seq<char>| #[trigger] views(values@).contains(t) <==> exists|k: int|
                0 <= k < seen.len() && followed_link(base@, #[trigger] seen[k]) == Some(t),
        decreases v.len() - i,
    {
        match link_at_exec(&v, &w, i) {
            Some(m) => {
                proof {
                    lemma_link_at(v@, i as int);
                }
                let link = sub_chars(&v, m.0, m.1);
                let ghost before = views(values@);
                let ghost old_seen = seen;
                proof {
                    seen = seen.push(link@);
                    assert(seq![link@] + links_from(v@, m.2 as int) =~= links_from(v@, i as int));
                    assert(links_from(v@, 0) =~= seen + links_from(v@, m.2 as int));
                }
                let skip = starts_with_chars(&link, &javascript) || starts_with_chars(&link, &hash);
                let ghost mut added: Option<Seq<char>> = None;
                if !skip {
                    let text = string_of(&link);
                    match join_url(base, text.as_str()) {
                        Some(u) => {
                            let uc = chars_of(u.as_str());
                            if starts_with_chars(&uc, &chars_of("http")) {
                                proof {
                                    added = Some(u@);
                                }
                                values = insert_string(values, u);
                            }
                        },
                        None => {},
                    }
                }
                proof {
                    assert(followed_link(base@, link@) == added);
                    assert forall|t: Seq<char>| #[trigger] views(values@).contains(t) <==> exists|k: int|
                        0 <= k < seen.len() && followed_link(base@, #[trigger] seen[k]) == Some(t) by {
                        if views(values@).contains(t) && !(added == Some(t)) {
                            assert(before.contains(t));
                            let k = choose|k: int| 0 <= k < old_seen.len() && followed_link(base@, #[trigger] old_seen[k]) == Some(t);
                            assert(seen[k] == old_seen[k]);
                        }
                        if added == Some(t) {
                            assert(seen[old_seen.len() as int] == link@);
                        }
                        if exists|k: int| 0 <= k < seen.len() && followed_link(base@, #[trigger] seen[k]) == Some(t) {
                            let k = choose|k: int| 0 <= k < seen.len() && followed_link(base@, #[trigger] seen[k]) == Some(t);
                            if k < old_seen.len() {
                                assert(old_seen[k] == seen[k]);
                                assert(before.contains(t));
                            }
                        }
                    }
                }
                i = m.2;
            },
            None => {
                i = i + 1;
            },
        }
    }
    assert(links_from(v@, i as int) =~= Seq::<Seq<char>>::empty());
    assert(seen + Seq::<Seq<char>>::empty() =~= seen);
    values
}

/// What requesting one candidate URL gave back.
#[derive(Debug, Clone)]
pub struct CandidateResult {
    pub status: u16,
    pub body: String,
    pub score: i64,
}

/// The result of a request that got a response: its status, the start of
/// its body, and their score.
pub fn candidate_result(status: u16, body: String, negative_markers: &Vec<String>) -> (r:
    CandidateResult)
    ensures
        r.status == status,
        r.body@ == body@,
        r.score == score_of(status, body@, views(negative_markers@)),
{
    let score = value_score(status, body.as_str(), negative_markers);
    CandidateResult { status, body, score }
}

/// A replayed target answered with some value but is blank.
pub open spec fn replayed_blank_target(work: crate::db::PendingWorkItem, result: Option<CandidateResult>) -> bool {
    match result {
        Some(res) => res.score > 0 && crate::text::trim(work.target@).len() == 0,
        None => false,
    }
}

/// Records one replayed unit of deferred enumeration: a target that
/// answered with some value becomes a `discovered` URL, and the unit is
/// marked done either way.
pub fn finish_replayed_work(
    db: &Database,
    work: &crate::db::PendingWorkItem,
    result: Option<CandidateResult>,
) -> (r: Result<(), WatcherError>)
    ensures
        r matches Err(e) ==> e.is_storage() || (e.is_invalid_with("url must not be empty"@)
            && replayed_blank_target(*work, result)),
        r matches Ok(()) ==> written(db.spec_path(), (WORK_DONE_SQL@, seq![None, text_slot(work.id@)])) && match result {
            Some(res) => res.score > 0 ==> exists|id: Seq<char>|
                #[trigger] url_upserted(db.spec_path(), work.system_id@, work.target@, "discovered"@, Some(res.status), res.score, id),
            None => true,
        },
{
    match result {
        Some(res) => {
            if res.score > 0 {
                let id = db.upsert_url(
                    work.system_id.as_str(),
                    work.target.as_str(),
                    "discovered",
                    Some(res.status),
                    res.score,
                )?;
                assert(url_upserted(db.spec_path(), work.system_id@, work.target@, "discovered"@, Some(res.status), res.score, id@));
            }
        },
        None => {},
    }
    db.finish_pending_work(work.id.as_str())?;
    Ok(())
}

/// `s` without its leading `/` characters (`trim_start_matches('/')`).
pub open spec fn without_leading_slashes(s: Seq<char>) -> Seq<char>
    decreases s.len(),
{
    if s.len() > 0 && s[0] == '/' {
        without_leading_slashes(s.skip(1))
    } else {
        s
    }
}

/// Computes [`without_leading_slashes`].
fn strip_leading_slashes(s: &str) -> (r: String)
    ensures
        r@ == without_leading_slashes(s@),
{
    let v = chars_of(s);
    let mut i: usize = 0;
    assert(v@.skip(0) =~= v@);
    while i < v.len() && v[i] == '/'
        invariant
            i <= v@.len(),
            without_leading_slashes(v@) == without_leading_slashes(v@.skip(i as int)),
        decreases v.len() - i,
    {
        assert(v@.skip(i as int).skip(1) =~= v@.skip(i + 1));
        i = i + 1;
    }
    let r = sub_chars(&v, i, v.len());
    assert(r@ =~= v@.skip(i as int));
    string_of(&r)
}

/// Where the enumeration of one service stands.
#[derive(Debug, Clone, PartialEq, Eq)]
pub enum ScanPhase {
    /// About to probe base URL `b`.
    Base(usize),
    /// About to probe dictionary path `d` under base URL `b`.
    Dict(usize, usize),
    /// About to probe discovered link `k`.
    Links(usize),
    /// Done.
    Finished,
}

/// The request the enumeration waits for.
#[derive(Debug, Clone, PartialEq, Eq)]
pub enum Awaiting {
    Nothing,
    Base(usize),
    Dict(usize, usize, String),
    Link(usize),
}

/// What the caller does next.
#[derive(Debug, Clone, PartialEq, Eq)]
pub enum ScanAction {
    /// Request `url`, then hand the result to `resume`; wait the per-target
    /// delay afterwards when `pause_after`.
    Fetch { url: String, pause_after: bool },
    /// The service is done (or a stop was requested and the rest queued).
    Finished,
}

/// The slow enumeration of one web service: every base URL, the
/// dictionary paths under each, then the links the pages led to (up to a
/// limit), stopping early and queueing the rest as deferred work when the
/// batch is asked to stop.
#[derive(Debug, Clone)]
pub struct ServiceScan {
    pub batch_id: String,
    pub system_id: String,
    pub bases: Vec<String>,
    pub dict: Vec<String>,
    pub link_limit: usize,
    pub links: Vec<String>,
    pub phase: ScanPhase,
    pub awaiting: Awaiting,
}

/// The fields an enumeration step never changes: its batch, system, base
/// URLs, dictionary and link limit.
pub open spec fn same_frame(a: ServiceScan, b: ServiceScan) -> bool {
    &&& a.batch_id@ == b.batch_id@
    &&& a.system_id@ == b.system_id@
    &&& a.bases@ == b.bases@
    &&& a.dict@ == b.dict@
    &&& a.link_limit == b.link_limit
}

/// Where an enumeration at `phase` stands once exhausted stages are
/// skipped, with `bases` base URLs, `dict` dictionary paths, `links` links
/// found and at most `limit` of them to follow: past the last dictionary
/// path of a base, on to the next base; past the last base, on to the
/// links; past the last link to follow, finished.
pub open spec fn settle(phase: ScanPhase, bases: nat, dict: nat, links: nat, limit: usize) -> ScanPhase {
    let p1 = match phase {
        ScanPhase::Dict(b, d) => if d >= dict {
            ScanPhase::Base((b + 1) as usize)
        } else {
            phase
        },
        _ => phase,
    };
    let p2 = match p1 {
        ScanPhase::Base(b) => if b >= bases {
            ScanPhase::Links(0)
        } else {
            p1
        },
        _ => p1,
    };
    match p2 {
        ScanPhase::Links(k) => if k >= links || k >= limit {
            ScanPhase::Finished
        } else {
            p2
        },
        _ => p2,
    }
}

/// Where an enumeration stands once exhausted stages are skipped: past the
/// last dictionary path of a base, on to the next base; past the last base,
/// on to the links; past the last link to follow, finished.
pub open spec fn settled_phase(s: ServiceScan) -> ScanPhase {
    let p1 = match s.phase {
        ScanPhase::Dict(b, d) => if d >= s.dict@.len() {
            ScanPhase::Base((b + 1) as usize)
        } else {
            s.phase
        },
        _ => s.phase,
    };
    let p2 = match p1 {
        ScanPhase::Base(b) => if b >= s.bases@.len() {
            ScanPhase::Links(0)
        } else {
            p1
        },
        _ => p1,
    };
    match p2 {
        ScanPhase::Links(k) => if k >= s.links@.len() || k >= s.link_limit {
            ScanPhase::Finished
        } else {
            p2
        },
        _ => p2,
    }
}

/// The settled phase of a scan is [`settle`] of its phase and sizes.
proof fn lemma_settled_is_settle(s: ServiceScan)
    ensures
        settled_phase(s) == settle(s.phase, s.bases@.len(), s.dict@.len(), s.links@.len(), s.link_limit),
{
}


/// The phase a response to the awaited request moves the scan to: from a
/// base URL to its first dictionary path, from a dictionary path to the
/// next, from a link to the next link.
pub open spec fn advanced_phase(s: ServiceScan) -> ScanPhase {
    match s.awaiting {
        Awaiting::Base(b) => if b < s.bases@.len() {
            ScanPhase::Dict(b, 0)
        } else {
            s.phase
        },
        Awaiting::Dict(b, d, _) => if b < s.bases@.len() && d < s.dict@.len() {
            ScanPhase::Dict(b, (d + 1) as usize)
        } else {
            s.phase
        },
        Awaiting::Link(k) => if k < s.links@.len() {
            ScanPhase::Links((k + 1) as usize)
        } else {
            s.phase
        },
        Awaiting::Nothing => s.phase,
    }
}

/// Recording the response takes a database write: a response to a base URL,
/// or one with a positive score to a dictionary path or a link.
pub open spec fn needs_write(s: ServiceScan, result: Option<CandidateResult>) -> bool {
    match result {
        None => false,
        Some(res) => match s.awaiting {
            Awaiting::Base(b) => b < s.bases@.len(),
            Awaiting::Dict(_, _, _) => res.score > 0,
            Awaiting::Link(k) => k < s.links@.len() && res.score > 0,
            Awaiting::Nothing => false,
        },
    }
}

/// `t` is a link the response leads to: one of the page of a base URL, or
/// of a dictionary path that answered 200 with a positive score.
pub open spec fn newly_followed(s: ServiceScan, result: Option<CandidateResult>, t: Seq<char>) -> bool {
    match result {
        None => false,
        Some(res) => match s.awaiting {
            Awaiting::Base(b) => b < s.bases@.len() && page_links_to(res.body@, s.bases@[b as int]@, t),
            Awaiting::Dict(_, _, c) => res.score > 0 && res.status == 200 && page_links_to(res.body@, c@, t),
            _ => false,
        },
    }
}

/// Where a scan stands after the response to its awaited request, with
/// `links` links found by then, once exhausted stages are skipped.
pub open spec fn resumed_phase(s: ServiceScan, links: nat) -> ScanPhase {
    settle(advanced_phase(s), s.bases@.len(), s.dict@.len(), links, s.link_limit)
}

/// The request a scan in state `s` waits for is `url`, with `pause_after`
/// telling whether the per-target delay follows it.
pub open spec fn fetch_described(s: ServiceScan, url: Seq<char>, pause_after: bool) -> bool {
    match s.awaiting {
        Awaiting::Base(b) => b < s.bases@.len() && url == s.bases@[b as int]@ && !pause_after,
        Awaiting::Dict(b, d, c) => b < s.bases@.len() && d < s.dict@.len() && c@ == url && url_joined(
            s.bases@[b as int]@,
            without_leading_slashes(s.dict@[d as int]@),
        ) == Some(url) && pause_after,
        Awaiting::Link(k) => k < s.links@.len() && k < s.link_limit && url == s.links@[k as int]@
            && pause_after,
        Awaiting::Nothing => false,
    }
}

/// The deferred enumeration of `target` was queued for the scan's batch and
/// system with the given priority.
pub open spec fn work_queued(db: Seq<char>, s: ServiceScan, target: Seq<char>, priority: i64) -> bool {
    written(db, (WORK_QUEUE_SQL@, seq![
        None,
        text_slot(s.batch_id@),
        text_slot(s.system_id@),
        text_slot("web_enum"@),
        text_slot(target),
        Some(crate::db::sql::Param::Integer(priority)),
        None,
    ]))
}

/// What finishing early at `phase` leaves queued when the batch was asked
/// to stop: the next dictionary candidate (priority 10) or the next link
/// (priority 5); nothing when the next step is a base URL or the end.
pub open spec fn deferral_at(db: Seq<char>, s: ServiceScan, phase: ScanPhase) -> bool {
    match phase {
        ScanPhase::Dict(b, d) => url_joined(s.bases@[b as int]@, without_leading_slashes(s.dict@[d as int]@))
            matches Some(c) ==> work_queued(db, s, c, 10),
        ScanPhase::Links(k) => work_queued(db, s, s.links@[k as int]@, 5),
        _ => true,
    }
}

/// What finishing early leaves queued when the batch was asked to stop,
/// from where the scan stands once exhausted stages are skipped.
pub open spec fn deferral_queued(db: Seq<char>, s: ServiceScan) -> bool {
    deferral_at(db, s, settled_phase(s))
}

/// A page at `base` links to `t`: some link of its body resolves to `t`.
pub open spec fn page_links_to(body: Seq<char>, base: Seq<char>, t: Seq<char>) -> bool {
    exists|k: int| 0 <= k < links_from(body, 0).len() && followed_link(base, #[trigger] links_from(body, 0)[k]) == Some(t)
}

impl ServiceScan {
    /// The enumeration is in a consistent state.
    pub open spec fn wf(&self) -> bool {
        &&& strictly_sorted(views(self.links@))
        &&& match self.phase {
            ScanPhase::Base(b) => b <= self.bases@.len(),
            ScanPhase::Dict(b, d) => b < self.bases@.len() && d <= self.dict@.len(),
            ScanPhase::Links(k) => k <= self.links@.len(),
            ScanPhase::Finished => true,
        }
    }

    /// A new enumeration of the given base URLs with the dictionary, that
    /// follows at most `link_limit` links.
    pub fn new(batch_id: &str, system_id: &str, bases: Vec<String>, dict: Vec<String>, link_limit: usize) -> (s: Self)
        ensures
            s.wf(),
            s.batch_id@ == batch_id@,
            s.system_id@ == system_id@,
            s.bases@ == bases@,
            s.dict@ == dict@,
            s.link_limit == link_limit,
            s.phase == ScanPhase::Base(0),
            s.awaiting == Awaiting::Nothing,
            s.links@.len() == 0,
    {
        ServiceScan {
            batch_id: String::from_str(batch_id),
            system_id: String::from_str(system_id),
            bases,
            dict,
            link_limit,
            links: Vec::new(),
            phase: ScanPhase::Base(0),
            awaiting: Awaiting::Nothing,
        }
    }

    /// The number of links followed: the discovered ones up to the limit.
    pub open spec fn links_to_follow(&self) -> int {
        if self.links@.len() <= self.link_limit {
            self.links@.len() as int
        } else {
            self.link_limit as int
        }
    }

    /// Moves to the next request, or finishes.
    pub fn next(&mut self, db: &Database) -> (r: Result<ScanAction, WatcherError>)
        requires
            old(self).wf(),
        ensures
            final(self).wf(),
            same_frame(*final(self), *old(self)),
            final(self).links@ == old(self).links@,
            final(self).bases@ == old(self).bases@,
            final(self).dict@ == old(self).dict@,
            settled_phase(*old(self)) is Finished ==> r matches Ok(ScanAction::Finished),
            (settled_phase(*old(self)) matches ScanPhase::Dict(b, d) && url_joined(
                old(self).bases@[b as int]@,
                without_leading_slashes(old(self).dict@[d as int]@),
            ) is None) ==> (r matches Err(e) && e.is_invalid_with("invalid url"@)),
            r matches Ok(ScanAction::Fetch { url, pause_after }) ==> fetch_described(*final(self), url@, pause_after)
                && final(self).phase == settled_phase(*old(self)),
            r matches Ok(ScanAction::Finished) ==> final(self).phase == ScanPhase::Finished,
            r matches Ok(ScanAction::Fetch { url, pause_after }) ==> (final(self).awaiting is Base ==> exists|id: Seq<char>|
                #[trigger] url_upserted(db.spec_path(), final(self).system_id@, url@, "discovered"@, None, 20, id)),
            r matches Ok(ScanAction::Finished) ==> deferral_queued(db.spec_path(), *old(self)),
            r matches Err(e) ==> e.is_storage() || e is Invalid,
    {
        if let ScanPhase::Dict(b, d) = self.phase {
            if d >= self.dict.len() {
                let n = self.bases.len();
                assert(b < n);
                self.phase = ScanPhase::Base(b + 1);
            }
        }
        if let ScanPhase::Base(b) = self.phase {
            if b >= self.bases.len() {
                self.phase = ScanPhase::Links(0);
            }
        }
        if let ScanPhase::Links(k) = self.phase {
            if k >= self.links.len() || k >= self.link_limit {
                self.phase = ScanPhase::Finished;
            }
        }
        match self.phase {
            ScanPhase::Finished => {
                self.awaiting = Awaiting::Nothing;
                Ok(ScanAction::Finished)
            },
            ScanPhase::Base(b) => {
                if db.should_stop_batch(self.batch_id.as_str())? {
                    self.phase = ScanPhase::Finished;
                    self.awaiting = Awaiting::Nothing;
                    return Ok(ScanAction::Finished);
                }
                let id = db.upsert_url(self.system_id.as_str(), self.bases[b].as_str(), "discovered", None, 20)?;
                assert(url_upserted(db.spec_path(), self.system_id@, self.bases@[b as int]@, "discovered"@, None, 20, id@));
                self.awaiting = Awaiting::Base(b);
                Ok(ScanAction::Fetch { url: self.bases[b].clone(), pause_after: false })
            },
            ScanPhase::Dict(b, d) => {
                let path = strip_leading_slashes(self.dict[d].as_str());
                let candidate = match join_url(self.bases[b].as_str(), path.as_str()) {
                    Some(c) => c,
                    None => {
                        return Err(error::invalid("invalid url"));
                    },
                };
                if db.should_stop_batch(self.batch_id.as_str())? {
                    db.add_pending_work(
                        self.batch_id.as_str(),
                        self.system_id.as_str(),
                        "web_enum",
                        candidate.as_str(),
                        10,
                    )?;
                    self.phase = ScanPhase::Finished;
                    self.awaiting = Awaiting::Nothing;
                    return Ok(ScanAction::Finished);
                }
                self.awaiting = Awaiting::Dict(b, d, candidate.clone());
                Ok(ScanAction::Fetch { url: candidate, pause_after: true })
            },
            ScanPhase::Links(k) => {
                if db.should_stop_batch(self.batch_id.as_str())? {
                    db.add_pending_work(
                        self.batch_id.as_str(),
                        self.system_id.as_str(),
                        "web_enum",
                        self.links[k].as_str(),
                        5,
                    )?;
                    self.phase = ScanPhase::Finished;
                    self.awaiting = Awaiting::Nothing;
                    return Ok(ScanAction::Finished);
                }
                self.awaiting = Awaiting::Link(k);
                Ok(ScanAction::Fetch { url: self.links[k].clone(), pause_after: true })
            },
        }
    }

    /// Adds the links a page at `page_url` mentions.
    fn follow_links(&mut self, body: &str, page_url: &str)
        requires
            old(self).wf(),
        ensures
            final(self).wf(),
            final(self).bases@ == old(self).bases@,
            final(self).dict@ == old(self).dict@,
            final(self).phase == old(self).phase,
            final(self).awaiting == old(self).awaiting,
            final(self).links@.len() >= old(self).links@.len(),
            same_frame(*final(self), *old(self)),
            forall|t: Seq<char>| #[trigger] views(final(self).links@).contains(t) <==> (views(old(self).links@).contains(t)
                || page_links_to(body@, page_url@, t)),
    {
        let found = extract_interesting_paths(body, page_url);
        let mut i: usize = 0;
        assert(views(found@).take(0) =~= Seq::<Seq<char>>::empty());
        while i < found.len()
            invariant
                i <= found@.len(),
                self.wf(),
                self.bases@ == old(self).bases@,
                self.dict@ == old(self).dict@,
                self.phase == old(self).phase,
                self.awaiting == old(self).awaiting,
                self.links@.len() >= old(self).links@.len(),
                same_frame(*self, *old(self)),
                forall|t: Seq<char>| #[trigger] views(self.links@).contains(t) <==> (views(old(self).links@).contains(t)
                    || views(found@).take(i as int).contains(t)),
            decreases found.len() - i,
        {
            proof {
                assert(views(found@).take(i + 1) =~= views(found@).take(i as int).push(found@[i as int]@));
                crate::port_set::lemma_push_contains(views(found@).take(i as int), found@[i as int]@);
            }
            let mut links: Vec<String> = Vec::new();
            std::mem::swap(&mut links, &mut self.links);
            let ghost before = views(links@);
            let grown = insert_string(links, found[i].clone());
            proof {
                if views(grown@).len() < before.len() {
                    assert(false) by {
                        lemma_set_grows(before, views(grown@));
                    }
                }
            }
            self.links = grown;
            i = i + 1;
        }
        proof {
            assert(views(found@).take(found@.len() as int) =~= views(found@));
            assert forall|t: Seq<char>| views(found@).contains(t) <==> page_links_to(body@, page_url@, t) by {
                if views(found@).contains(t) {
                    let k = choose|k: int|
                        0 <= k < links_from(body@, 0).len() && followed_link(page_url@, #[trigger] links_from(body@, 0)[k])
                            == Some(t);
                }
            }
        }
    }

    /// Records the result of the awaited request (`None` when it failed)
    /// and moves on.
    pub fn resume(&mut self, db: &Database, result: Option<CandidateResult>) -> (r: Result<ScanAction, WatcherError>)
        requires
            old(self).wf(),
        ensures
            r is Ok ==> result_recorded(db.spec_path(), *old(self), result),
            final(self).wf(),
            same_frame(*final(self), *old(self)),
            forall|t: Seq<char>| #[trigger] views(old(self).links@).contains(t) ==> views(final(self).links@).contains(t),
            r is Ok ==> forall|t: Seq<char>|
                #[trigger] views(final(self).links@).contains(t) <==> (views(old(self).links@).contains(t)
                    || newly_followed(*old(self), result, t)),
            !needs_write(*old(self), result) ==> final(self).links@ == old(self).links@,
            !needs_write(*old(self), result) && resumed_phase(*old(self), old(self).links@.len()) is Finished
                ==> r matches Ok(ScanAction::Finished),
            !needs_write(*old(self), result) ==> ((resumed_phase(*old(self), old(self).links@.len()) matches ScanPhase::Dict(
                b,
                d,
            ) && url_joined(old(self).bases@[b as int]@, without_leading_slashes(old(self).dict@[d as int]@)) is None)
                ==> (r matches Err(e) && e.is_invalid_with("invalid url"@))),
            r matches Ok(ScanAction::Fetch { url, pause_after }) ==> fetch_described(*final(self), url@, pause_after)
                && final(self).phase == resumed_phase(*old(self), final(self).links@.len()),
            r matches Ok(ScanAction::Fetch { url, pause_after }) ==> (final(self).awaiting is Base ==> exists|id: Seq<char>|
                #[trigger] url_upserted(db.spec_path(), final(self).system_id@, url@, "discovered"@, None, 20, id)),
            r matches Ok(ScanAction::Finished) ==> final(self).phase == ScanPhase::Finished,
            r matches Ok(ScanAction::Finished) ==> deferral_at(
                db.spec_path(),
                *final(self),
                resumed_phase(*old(self), final(self).links@.len()),
            ),
            r matches Err(e) ==> e.is_storage() || e is Invalid,
    {
        let mut awaiting = Awaiting::Nothing;
        std::mem::swap(&mut awaiting, &mut self.awaiting);
        match awaiting {
            Awaiting::Nothing => {},
            Awaiting::Base(b) => {
                if b < self.bases.len() {
                    let base = self.bases[b].clone();
                    if let Some(res) = result {
                        let id = db.upsert_url(self.system_id.as_str(), base.as_str(), "discovered", Some(res.status), res.score)?;
                        assert(url_upserted(db.spec_path(), self.system_id@, base@, "discovered"@, Some(res.status), res.score, id@));
                        self.follow_links(res.body.as_str(), base.as_str());
                    }
                    if b < self.bases.len() {
                        self.phase = ScanPhase::Dict(b, 0);
                    }
                }
            },
            Awaiting::Dict(b, d, candidate) => {
                if let Some(res) = result {
                    if res.score > 0 {
                        let id = db.upsert_url(self.system_id.as_str(), candidate.as_str(), "discovered", Some(res.status), res.score)?;
                        assert(url_upserted(db.spec_path(), self.system_id@, candidate@, "discovered"@, Some(res.status), res.score, id@));
                        if res.status == 200 {
                            self.follow_links(res.body.as_str(), candidate.as_str());
                        }
                    }
                }
                if b < self.bases.len() && d < self.dict.len() {
                    self.phase = ScanPhase::Dict(b, d + 1);
                }
            },
            Awaiting::Link(k) => {
                if k < self.links.len() {
                    if let Some(res) = result {
                        if res.score > 0 {
                            let target = self.links[k].clone();
                            let id = db.upsert_url(self.system_id.as_str(), target.as_str(), "js_discovered", Some(res.status), res.score)?;
                            assert(url_upserted(db.spec_path(), self.system_id@, target@, "js_discovered"@, Some(res.status), res.score, id@));
                        }
                    }
                    self.phase = ScanPhase::Links(k + 1);
                }
            },
        }
        assert(self.phase == advanced_phase(*old(self)));
        assert(self.awaiting == Awaiting::Nothing);
        proof {
            lemma_settled_is_settle(*self);
        }
        assert(settled_phase(*self) == resumed_phase(*old(self), self.links@.len()));
        self.next(db)
    }
}

/// What a response to the awaited request of `scan` leaves in the database
/// `db`: a base URL is recorded as discovered with the response's status and
/// score; a dictionary candidate, and a followed link (as discovered from
/// scripts), only when the score is positive.
pub open spec fn result_recorded(db: Seq<char>, scan: ServiceScan, result: Option<CandidateResult>) -> bool {
    match result {
        None => true,
        Some(res) => match scan.awaiting {
            Awaiting::Base(b) => b < scan.bases@.len() ==> exists|id: Seq<char>|
                #[trigger] url_upserted(db, scan.system_id@, scan.bases@[b as int]@, "discovered"@, Some(res.status), res.score, id),
            Awaiting::Dict(_, _, candidate) => res.score > 0 ==> exists|id: Seq<char>|
                #[trigger] url_upserted(db, scan.system_id@, candidate@, "discovered"@, Some(res.status), res.score, id),
            Awaiting::Link(k) => k < scan.links@.len() && res.score > 0 ==> exists|id: Seq<char>|
                #[trigger] url_upserted(db, scan.system_id@, scan.links@[k as int]@, "js_discovered"@, Some(res.status), res.score, id),
            Awaiting::Nothing => true,
        },
    }
}

/// A list that holds every string of another, without repeats, is no
/// shorter.
proof fn lemma_set_grows(a: Seq<Seq<char>>, b: Seq<Seq<char>>)
    requires
        strictly_sorted(a),
        strictly_sorted(b),
        forall|t: Seq<char>| a.contains(t) ==> b.contains(t),
    ensures
        b.len() >= a.len(),
{
    crate::string_set::lemma_sorted_no_dup(a);
    crate::string_set::lemma_sorted_no_dup(b);
    assert(a.to_set().subset_of(b.to_set()));
    a.unique_seq_to_set();
    b.unique_seq_to_set();
    vstd::set_lib::lemma_len_subset(a.to_set(), b.to_set());
}

} // verus!
