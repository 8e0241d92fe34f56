//! The batch summary mail: when one is sent, what it says, and how the SMTP
//! connection is secured. Building and sending the message is left to the
//! mail layer.

use vstd::prelude::*;

use crate::config::AppConfig;
use crate::db::helpers::{signed_decimal, signed_decimal_string};
use crate::db::Database;
use crate::db::lists::batch_status_from;
use crate::db::sql::Exchange;
use crate::error::{self, WatcherError};
use crate::models::BatchStatus;
use crate::search::views;
use crate::text::{trim, ascii_lower, chars_of, trim_chars, lower_chars, chars_eq_str, string_of};

verus! {

/// How the SMTP connection is secured.
#[derive(Debug, Clone, Copy, PartialEq, Eq, Structural)]
pub enum SmtpMode {
    /// TLS from the start (SMTPS).
    Tls,
    /// Plain connection upgraded with STARTTLS.
    StartTls,
    /// No encryption.
    Plain,
}

/// The security a configured `smtp_security` names, trimmed and compared
/// without regard to ASCII case; `auto` picks TLS on port 465 and STARTTLS
/// elsewhere.
pub open spec fn smtp_mode_of(port: u16, security: Seq<char>) -> Option<SmtpMode> {
    let s = ascii_lower(trim(security));
    if s == "auto"@ {
        if port == 465 {
            Some(SmtpMode::Tls)
        } else {
            Some(SmtpMode::StartTls)
        }
    } else if s == "ssl"@ || s == "tls"@ || s == "smtps"@ {
        Some(SmtpMode::Tls)
    } else if s == "starttls"@ {
        Some(SmtpMode::StartTls)
    } else if s == "none"@ || s == "plain"@ {
        Some(SmtpMode::Plain)
    } else {
        None
    }
}

/// What each configured security selects, once trimmed and lower-cased:
/// `ssl`, `tls` and `smtps` all select TLS from the start and `starttls`
/// selects STARTTLS, whatever the port; `none` and `plain` select no
/// encryption; `auto` selects TLS on port 465 and STARTTLS elsewhere. Only
/// `auto` depends on the port.
pub proof fn lemma_smtp_security_names(port: u16, other_port: u16, security: Seq<char>)
    ensures
        ({
            let s = ascii_lower(trim(security));
            &&& (s == "ssl"@ || s == "tls"@ || s == "smtps"@) ==> smtp_mode_of(port, security) == Some(SmtpMode::Tls)
            &&& s == "starttls"@ ==> smtp_mode_of(port, security) == Some(SmtpMode::StartTls)
            &&& (s == "none"@ || s == "plain"@) ==> smtp_mode_of(port, security) == Some(SmtpMode::Plain)
            &&& s == "auto"@ ==> smtp_mode_of(port, security) == Some(
                if port == 465 {
                    SmtpMode::Tls
                } else {
                    SmtpMode::StartTls
                },
            )
            &&& s != "auto"@ ==> smtp_mode_of(port, security) == smtp_mode_of(other_port, security)
        }),
{
    reveal_strlit("auto");
    reveal_strlit("ssl");
    reveal_strlit("tls");
    reveal_strlit("smtps");
    reveal_strlit("starttls");
    reveal_strlit("none");
    reveal_strlit("plain");
    assert("auto"@.len() == 4 && "auto"@[0] == 'a');
    assert("none"@.len() == 4 && "none"@[0] == 'n');
    assert("ssl"@.len() == 3 && "ssl"@[0] == 's');
    assert("tls"@.len() == 3 && "tls"@[0] == 't');
    assert("smtps"@.len() == 5 && "smtps"@[0] == 's');
    assert("plain"@.len() == 5 && "plain"@[0] == 'p');
    assert("starttls"@.len() == 8);
}

/// Reads the configured SMTP security; an unknown one is an error.
pub fn smtp_mode(port: u16, security: &str) -> (r: Result<SmtpMode, WatcherError>)
    ensures
        match smtp_mode_of(port, security@) {
            Some(m) => r == Ok::<SmtpMode, WatcherError>(m),
            None => r matches Err(e) && e.is_invalid_with(
                "unsupported smtp_security `"@ + ascii_lower(trim(security@))
                    + "`; use auto, tls, starttls, or none"@,
            ),
        },
{
    let s = lower_chars(&trim_chars(&chars_of(security)));
    if chars_eq_str(&s, "auto") {
        if port == 465 {
            Ok(SmtpMode::Tls)
        } else {
            Ok(SmtpMode::StartTls)
        }
    } else if chars_eq_str(&s, "ssl") || chars_eq_str(&s, "tls") || chars_eq_str(&s, "smtps") {
        Ok(SmtpMode::Tls)
    } else if chars_eq_str(&s, "starttls") {
        Ok(SmtpMode::StartTls)
    } else if chars_eq_str(&s, "none") || chars_eq_str(&s, "plain") {
        Ok(SmtpMode::Plain)
    } else {
        let shown = string_of(&s);
        Err(error::invalid3("unsupported smtp_security `", shown.as_str(), "`; use auto, tls, starttls, or none"))
    }
}

/// The subject of a batch summary.
pub open spec fn subject_text(s: BatchStatus) -> Seq<char> {
    "[watcher] batch "@ + s.batch_id@ + " "@ + s.status@ + " alerts="@ + signed_decimal(
        s.alerts as int,
    ) + " vulns="@ + signed_decimal(s.vulnerabilities as int)
}

/// The subject of a batch summary.
pub fn summary_subject(s: &BatchStatus) -> (t: String)
    ensures
        t@ == subject_text(*s),
{
    String::from_str("[watcher] batch ").concat(s.batch_id.as_str()).concat(" ").concat(
        s.status.as_str(),
    ).concat(" alerts=").concat(signed_decimal_string(s.alerts).as_str()).concat(" vulns=").concat(
        signed_decimal_string(s.vulnerabilities).as_str(),
    )
}

/// The body of a batch summary, one labelled line per fact.
pub open spec fn body_text(s: BatchStatus, attachment: Seq<char>) -> Seq<char> {
    "任务批次: "@ + s.batch_id@ + "\n开始时间: "@ + s.started_at@ + "\n结束时间: "@ + match s.ended_at {
        Some(e) => e@,
        None => "-"@,
    } + "\n执行状态: "@ + s.status@ + "\n资产变化/告警: "@ + signed_decimal(s.alerts as int)
        + "\n漏洞列表: "@ + signed_decimal(s.vulnerabilities as int) + "\n报告附件: "@ + attachment
        + "\n"@
}

/// The body of a batch summary naming the attached report.
pub fn summary_body(s: &BatchStatus, attachment: &str) -> (t: String)
    ensures
        t@ == body_text(*s, attachment@),
{
    let ended = match &s.ended_at {
        Some(e) => e.as_str(),
        None => "-",
    };
    String::from_str("任务批次: ").concat(s.batch_id.as_str()).concat("\n开始时间: ").concat(
        s.started_at.as_str(),
    ).concat("\n结束时间: ").concat(ended).concat("\n执行状态: ").concat(s.status.as_str()).concat(
        "\n资产变化/告警: ",
    ).concat(signed_decimal_string(s.alerts).as_str()).concat("\n漏洞列表: ").concat(
        signed_decimal_string(s.vulnerabilities).as_str(),
    ).concat("\n报告附件: ").concat(attachment).concat("\n")
}

/// Everything a batch summary mail needs.
#[derive(Debug, Clone)]
pub struct SummaryMail {
    pub subject: String,
    pub body: String,
    pub from: String,
    pub to: Vec<String>,
    pub host: String,
    pub port: u16,
    /// The configured `smtp_security`, read with [`smtp_mode`] once the
    /// message is built.
    pub security: String,
    pub username: String,
    pub password: String,
}

/// The summary mail of a batch, or `None` when mail is switched off; the
/// report at `attachment` is named in the body.
pub fn summary_mail(db: &Database, config: &AppConfig, batch_id: &str, attachment: &str) -> (r: Result<
    Option<SummaryMail>,
    WatcherError,
>)
    ensures
        !config.email.enabled ==> r matches Ok(None),
        config.email.enabled ==> !(r matches Ok(None)),
        r matches Ok(Some(m)) ==> config.email.enabled && m.from@ == config.email.from@ && m.port
            == config.email.smtp_port && m.security@ == config.email.smtp_security@,
        r matches Ok(Some(m)) ==> m.host@ == config.email.smtp_host@ && m.username@ == config.email.username@
            && m.password@ == config.email.password@ && views(m.to@) == views(config.email.to@),
        r matches Ok(Some(m)) ==> exists|s: BatchStatus, q: Exchange, a: Exchange, v: Exchange|
            #[trigger] batch_status_from(db.spec_path(), s, Some(batch_id@), q, a, v) && s.batch_id@ == batch_id@ && m.subject@
                == subject_text(s) && m.body@ == body_text(s, attachment@),
        r matches Err(e) ==> e.is_storage(),
{
    if !config.email.enabled {
        return Ok(None);
    }
    let status = db.batch_status(Some(batch_id))?;
    Ok(
        Some(
            SummaryMail {
                subject: summary_subject(&status),
                body: summary_body(&status, attachment),
                from: config.email.from.clone(),
                to: config.email.to.clone(),
                host: config.email.smtp_host.clone(),
                port: config.email.smtp_port,
                security: config.email.smtp_security.clone(),
                username: config.email.username.clone(),
                password: config.email.password.clone(),
            },
        ),
    )
}

} // verus!
