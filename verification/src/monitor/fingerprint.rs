//! Quick service fingerprints: which schemes to try on a port, and what an
//! HTTP answer or a banner says about the service.

use vstd::prelude::*;

use crate::db::sql::{opt_view, opt_slot, text_slot, written, Param};
use crate::db::scans::PORT_FINGERPRINT_SQL;
use crate::db::Database;
use crate::error::WatcherError;
use crate::models::PortAsset;
use crate::text::{ascii_lower, contains_seq, trim, decimal, chars_of, lower_chars, contains_chars, trim_chars, string_of, decimal_string};

verus! {

/// What a quick fingerprint found on a port.
#[derive(Debug, Clone)]
pub struct FingerprintResult {
    pub service: Option<String>,
    pub fingerprint: Option<String>,
    pub is_web: bool,
    pub scheme: Option<String>,
}

/// The schemes to try on a port, in order: HTTPS first on 443 and 8443.
pub open spec fn schemes_for(port: u16) -> Seq<Seq<char>> {
    if port == 443 || port == 8443 {
        seq!["https"@, "http"@]
    } else {
        seq!["http"@, "https"@]
    }
}

/// Both schemes are tried on every port, each once; HTTPS comes first
/// exactly on the usual HTTPS ports, 443 and 8443.
pub proof fn lemma_schemes_tried(port: u16)
    ensures
        schemes_for(port).len() == 2,
        schemes_for(port).contains("http"@),
        schemes_for(port).contains("https"@),
        schemes_for(port)[0] != schemes_for(port)[1],
        schemes_for(port)[0] == "https"@ <==> (port == 443 || port == 8443),
{
    reveal_strlit("http");
    reveal_strlit("https");
    assert("http"@.len() != "https"@.len());
    assert(schemes_for(port)[0] == schemes_for(port)[0]);
    assert(schemes_for(port)[1] == schemes_for(port)[1]);
}

/// The schemes to try on a port, in order.
pub fn preferred_schemes(port: u16) -> (v: Vec<&'static str>)
    ensures
        v@.len() == 2,
        v@[0]@ == schemes_for(port)[0],
        v@[1]@ == schemes_for(port)[1],
{
    if port == 443 || port == 8443 {
        vec!["https", "http"]
    } else {
        vec!["http", "https"]
    }
}

/// The service a banner names, looked for without regard to ASCII case:
/// `ssh`, then `smtp`, then `ftp`, else plain `tcp`.
pub open spec fn banner_service(banner: Seq<char>) -> Seq<char> {
    let lower = ascii_lower(banner);
    if contains_seq(lower, "ssh"@) {
        "ssh"@
    } else if contains_seq(lower, "smtp"@) {
        "smtp"@
    } else if contains_seq(lower, "ftp"@) {
        "ftp"@
    } else {
        "tcp"@
    }
}

/// A banner is classified by a service word it holds (ASCII case aside):
/// `ssh` wins over `smtp`, which wins over `ftp`; the service named is
/// always one of these words that the banner holds, and `tcp` is given
/// exactly when it holds none of them.
pub proof fn lemma_banner_names_a_word_it_holds(banner: Seq<char>)
    ensures
        contains_seq(ascii_lower(banner), "ssh"@) ==> banner_service(banner) == "ssh"@,
        !contains_seq(ascii_lower(banner), "ssh"@) && contains_seq(ascii_lower(banner), "smtp"@) ==> banner_service(banner)
            == "smtp"@,
        !contains_seq(ascii_lower(banner), "ssh"@) && !contains_seq(ascii_lower(banner), "smtp"@) && contains_seq(
            ascii_lower(banner),
            "ftp"@,
        ) ==> banner_service(banner) == "ftp"@,
        banner_service(banner) == "tcp"@ <==> !(contains_seq(ascii_lower(banner), "ssh"@) || contains_seq(
            ascii_lower(banner),
            "smtp"@,
        ) || contains_seq(ascii_lower(banner), "ftp"@)),
        banner_service(banner) != "tcp"@ ==> contains_seq(ascii_lower(banner), banner_service(banner)),
{
    reveal_strlit("ssh");
    reveal_strlit("smtp");
    reveal_strlit("ftp");
    reveal_strlit("tcp");
    assert("ssh"@[0] == 's' && "tcp"@[0] == 't' && "ftp"@[0] == 'f');
    assert("smtp"@.len() != "tcp"@.len());
}

/// The service a banner names.
pub fn classify_banner(banner: &str) -> (s: &'static str)
    ensures
        s@ == banner_service(banner@),
{
    let lower = lower_chars(&chars_of(banner));
    if contains_chars(&lower, &chars_of("ssh")) {
        "ssh"
    } else if contains_chars(&lower, &chars_of("smtp")) {
        "smtp"
    } else if contains_chars(&lower, &chars_of("ftp")) {
        "ftp"
    } else {
        "tcp"
    }
}

/// The fingerprint of a port without a known IP: plain TCP.
pub fn unaddressed_fingerprint() -> (r: FingerprintResult)
    ensures
        opt_view(r.service) == Some("tcp"@),
        r.fingerprint is None,
        !r.is_web,
        r.scheme is None,
{
    FingerprintResult { service: Some(String::from_str("tcp")), fingerprint: None, is_web: false, scheme: None }
}

/// The fingerprint of a port that answered HTTP under `scheme` with
/// `status` and a `Server` header (empty when absent).
pub fn web_fingerprint(scheme: &str, status: u16, server: &str) -> (r: FingerprintResult)
    ensures
        opt_view(r.service) == Some("web"@),
        opt_view(r.fingerprint) == Some(if server@.len() == 0 {
            "http_status="@ + decimal(status as nat)
        } else {
            "http_status="@ + decimal(status as nat) + "; server="@ + server@
        }),
        r.is_web,
        opt_view(r.scheme) == Some(scheme@),
{
    let code = decimal_string(status as u64);
    let fingerprint = if server.unicode_len() == 0 {
        String::from_str("http_status=").concat(code.as_str())
    } else {
        String::from_str("http_status=").concat(code.as_str()).concat("; server=").concat(server)
    };
    FingerprintResult {
        service: Some(String::from_str("web")),
        fingerprint: Some(fingerprint),
        is_web: true,
        scheme: Some(String::from_str(scheme)),
    }
}

/// The fingerprint of a port that did not answer HTTP, from the banner it
/// sent (empty when none): the named service and the trimmed banner.
pub fn banner_fingerprint(banner: &str) -> (r: FingerprintResult)
    ensures
        opt_view(r.service) == Some(banner_service(trim(banner@))),
        opt_view(r.fingerprint) == if trim(banner@).len() == 0 {
            None
        } else {
            Some(trim(banner@))
        },
        !r.is_web,
        r.scheme is None,
{
    let t = string_of(&trim_chars(&chars_of(banner)));
    let service = String::from_str(classify_banner(t.as_str()));
    let fingerprint = if t.as_str().unicode_len() == 0 {
        None
    } else {
        Some(t)
    };
    FingerprintResult { service: Some(service), fingerprint, is_web: false, scheme: None }
}

/// The next thing a quick fingerprint of a port does, after `failed` HTTP
/// attempts came to nothing.
#[derive(Debug, Clone)]
pub enum FingerprintStep {
    /// Request this URL; its scheme is the one to record on an answer.
    TryHttp { url: String, scheme: &'static str },
    /// Read the banner from `ip:port`.
    GrabBanner { ip: String, port: u16 },
    /// Nothing to probe: record this result.
    Done(FingerprintResult),
}

/// Decides the next probe: each preferred scheme in turn at
/// `scheme://ip:port`, then the banner; a port without an IP is plain TCP.
pub fn fingerprint_step(port: &PortAsset, failed: usize) -> (s: FingerprintStep)
    ensures
        port.ip is None ==> (s matches FingerprintStep::Done(r) && opt_view(r.service) == Some("tcp"@)),
        port.ip is Some && failed < 2 ==> (s matches FingerprintStep::TryHttp { url, scheme } && scheme@
            == schemes_for(port.port)[failed as int] && url@ == scheme@ + "://"@ + port.ip.unwrap()@ + ":"@ + decimal(
            port.port as nat,
        )),
        port.ip is Some && failed >= 2 ==> (s matches FingerprintStep::GrabBanner { ip: i, port: p } && i@
            == port.ip.unwrap()@ && p == port.port),
{
    match &port.ip {
        None => FingerprintStep::Done(unaddressed_fingerprint()),
        Some(ip) => {
            if failed < 2 {
                let schemes = preferred_schemes(port.port);
                let scheme = schemes[failed];
                let url = String::from_str(scheme).concat("://").concat(ip.as_str()).concat(":").concat(
                    decimal_string(port.port as u64).as_str(),
                );
                FingerprintStep::TryHttp { url, scheme }
            } else {
                FingerprintStep::GrabBanner { ip: ip.clone(), port: port.port }
            }
        },
    }
}

/// Stores a port's fingerprint.
pub fn record_fingerprint(db: &Database, port: &PortAsset, result: &FingerprintResult) -> (r: Result<(), WatcherError>)
    ensures
        r matches Ok(()) ==> written(db.spec_path(), 
            (PORT_FINGERPRINT_SQL@, seq![
                opt_slot(opt_view(result.service)),
                opt_slot(opt_view(result.fingerprint)),
                Some(Param::Integer(if result.is_web { 1 } else { 0 })),
                opt_slot(opt_view(result.scheme)),
                None,
                text_slot(port.id@),
            ]),
        ),
        r matches Err(e) ==> e.is_storage(),
{
    let service = match &result.service {
        Some(s) => Some(s.as_str()),
        None => None,
    };
    let fingerprint = match &result.fingerprint {
        Some(s) => Some(s.as_str()),
        None => None,
    };
    let scheme = match &result.scheme {
        Some(s) => Some(s.as_str()),
        None => None,
    };
    db.update_port_fingerprint(port.id.as_str(), service, fingerprint, result.is_web, scheme)
}

} // verus!
