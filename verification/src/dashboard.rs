//! What the terminal dashboard shows, as text and colour roles: stage
//! names, shortened identifiers and subjects, batch progress and the lines
//! of the summary panels. Drawing the panels is left to the terminal layer.

use vstd::prelude::*;

use crate::models::{DashboardAlert, DashboardSnapshot, DashboardStage};
use crate::text::{ascii_lower, ascii_upper, chars_of, lower_chars, upper_chars, chars_eq_str, string_of, sub_chars, str_eq};

verus! {

/// The colour role of a piece of dashboard text.
#[derive(Debug, Clone, Copy, PartialEq, Eq, Structural)]
pub enum Tone {
    Red,
    LightRed,
    Yellow,
    Green,
    Accent,
    Muted,
}

/// The colour of an alert severity, compared without regard to ASCII case:
/// critical red, high light red, medium yellow, low green, others muted.
pub open spec fn severity_tone_of(severity: Seq<char>) -> Tone {
    let s = ascii_lower(severity);
    if s == "critical"@ {
        Tone::Red
    } else if s == "high"@ {
        Tone::LightRed
    } else if s == "medium"@ {
        Tone::Yellow
    } else if s == "low"@ {
        Tone::Green
    } else {
        Tone::Muted
    }
}

/// The colour of an alert severity.
pub fn severity_tone(severity: &str) -> (t: Tone)
    ensures
        t == severity_tone_of(severity@),
{
    let s = lower_chars(&chars_of(severity));
    if chars_eq_str(&s, "critical") {
        Tone::Red
    } else if chars_eq_str(&s, "high") {
        Tone::LightRed
    } else if chars_eq_str(&s, "medium") {
        Tone::Yellow
    } else if chars_eq_str(&s, "low") {
        Tone::Green
    } else {
        Tone::Muted
    }
}

/// The colour of a batch or stage status, compared without regard to ASCII
/// case: running accent, completed green, warning or interrupted yellow,
/// failed red, others muted.
pub open spec fn status_tone_of(status: Seq<char>) -> Tone {
    let s = ascii_lower(status);
    if s == "running"@ {
        Tone::Accent
    } else if s == "completed"@ {
        Tone::Green
    } else if s == "warning"@ || s == "interrupted"@ {
        Tone::Yellow
    } else if s == "failed"@ {
        Tone::Red
    } else {
        Tone::Muted
    }
}

/// The colour of a batch or stage status.
pub fn status_tone(status: &str) -> (t: Tone)
    ensures
        t == status_tone_of(status@),
{
    let s = lower_chars(&chars_of(status));
    if chars_eq_str(&s, "running") {
        Tone::Accent
    } else if chars_eq_str(&s, "completed") {
        Tone::Green
    } else if chars_eq_str(&s, "warning") || chars_eq_str(&s, "interrupted") {
        Tone::Yellow
    } else if chars_eq_str(&s, "failed") {
        Tone::Red
    } else {
        Tone::Muted
    }
}

/// The display name of a pipeline stage.
pub open spec fn stage_name(stage: Seq<char>) -> Seq<char> {
    if stage == "dns"@ {
        "DNS 解析"@
    } else if stage == "port_scan"@ {
        "端口扫描"@
    } else if stage == "fingerprint"@ {
        "服务指纹"@
    } else if stage == "web_enum"@ {
        "Web 枚举"@
    } else if stage == "vulnerability_scan"@ {
        "漏洞检查"@
    } else if stage == "detailed_fingerprint"@ {
        "深度指纹"@
    } else if stage == "report"@ {
        "报告打包"@
    } else if stage == "email_notification"@ {
        "邮件通知"@
    } else {
        "自定义阶段"@
    }
}

/// The display name of a pipeline stage.
pub fn stage_label(stage: &str) -> (s: &'static str)
    ensures
        s@ == stage_name(stage@),
{
    if str_eq(stage, "dns") {
        "DNS 解析"
    } else if str_eq(stage, "port_scan") {
        "端口扫描"
    } else if str_eq(stage, "fingerprint") {
        "服务指纹"
    } else if str_eq(stage, "web_enum") {
        "Web 枚举"
    } else if str_eq(stage, "vulnerability_scan") {
        "漏洞检查"
    } else if str_eq(stage, "detailed_fingerprint") {
        "深度指纹"
    } else if str_eq(stage, "report") {
        "报告打包"
    } else if str_eq(stage, "email_notification") {
        "邮件通知"
    } else {
        "自定义阶段"
    }
}

/// The first `n` characters of `s`, or all of them.
pub open spec fn first_chars(s: Seq<char>, n: int) -> Seq<char> {
    if s.len() <= n {
        s
    } else {
        s.take(n)
    }
}

/// The first eight characters of an identifier.
pub fn short_id(value: &str) -> (s: String)
    ensures
        s@ == first_chars(value@, 8),
{
    let v = chars_of(value);
    let n = if v.len() < 8 {
        v.len()
    } else {
        8
    };
    let r = sub_chars(&v, 0, n);
    assert(v@.len() <= 8 ==> v@.subrange(0, n as int) =~= v@);
    assert(v@.len() > 8 ==> v@.subrange(0, n as int) =~= v@.take(8));
    string_of(&r)
}

/// `s` cut to `maximum` characters, with `…` when something was cut.
pub open spec fn truncated(s: Seq<char>, maximum: int) -> Seq<char> {
    if s.len() <= maximum {
        s
    } else {
        s.take(maximum).push('…')
    }
}

/// Cuts a text to at most `maximum` characters, marking a cut with `…`.
pub fn truncate(value: &str, maximum: usize) -> (s: String)
    ensures
        s@ == truncated(value@, maximum as int),
{
    let v = chars_of(value);
    if v.len() <= maximum {
        return String::from_str(value);
    }
    let mut r = sub_chars(&v, 0, maximum);
    r.push('…');
    assert(v@.subrange(0, maximum as int) =~= v@.take(maximum as int));
    string_of(&r)
}

/// A stage counts as done when it completed, with or without warnings.
pub open spec fn stage_done(stage: DashboardStage) -> bool {
    stage.status@ == "completed"@ || stage.status@ == "warning"@
}

/// How many of the stages are done.
pub open spec fn done_count(stages: Seq<DashboardStage>) -> nat
    decreases stages.len(),
{
    if stages.len() == 0 {
        0
    } else {
        done_count(stages.drop_last()) + if stage_done(stages.last()) {
            1nat
        } else {
            0nat
        }
    }
}

/// How far the latest batch has come.
#[derive(Debug, Clone, Copy, PartialEq, Eq)]
pub struct StageProgress {
    pub completed: usize,
    pub total: usize,
    pub percent: u16,
}

/// Done stages can be no more than all stages.
proof fn lemma_done_count_bound(stages: Seq<DashboardStage>)
    ensures
        done_count(stages) <= stages.len(),
    decreases stages.len(),
{
    if stages.len() > 0 {
        lemma_done_count_bound(stages.drop_last());
    }
}

/// The done stages, all stages, and the whole percentage of done ones.
pub fn stage_progress(stages: &Vec<DashboardStage>) -> (p: StageProgress)
    ensures
        p.completed == done_count(stages@),
        p.total == stages@.len(),
        p.percent == if stages@.len() == 0 {
            0
        } else {
            done_count(stages@) * 100 / stages@.len()
        },
        p.percent <= 100,
{
    let mut completed: usize = 0;
    let mut i: usize = 0;
    assert(stages@.take(0) =~= Seq::<DashboardStage>::empty());
    while i < stages.len()
        invariant
            i <= stages@.len(),
            completed == done_count(stages@.take(i as int)),
            completed <= i,
        decreases stages.len() - i,
    {
        assert(stages@.take(i + 1).drop_last() =~= stages@.take(i as int));
        let s = stages[i].status.as_str();
        if str_eq(s, "completed") || str_eq(s, "warning") {
            completed = completed + 1;
        }
        i = i + 1;
    }
    assert(stages@.take(stages@.len() as int) =~= stages@);
    let total = stages.len();
    if total == 0 {
        return StageProgress { completed, total, percent: 0 };
    }
    let scaled: u128 = (completed as u128) * 100;
    let q: u128 = scaled / (total as u128);
    assert(q <= 100) by (nonlinear_arith)
        requires
            q == scaled / (total as u128),
            scaled == completed * 100,
            completed <= total,
            total > 0,
    ;
    let percent = q as u16;
    StageProgress { completed, total, percent }
}

/// The header's batch label and status: the short batch id and its status
/// in capitals, or placeholders when no batch has run.
pub fn header_labels(snapshot: &DashboardSnapshot) -> (r: (String, String))
    ensures
        match &snapshot.latest_batch {
            Some(b) => r.0@ == first_chars(b.id@, 8) && r.1@ == ascii_upper(b.status@),
            None => r.0@ == "暂无批次"@ && r.1@ == "IDLE"@,
        },
{
    match &snapshot.latest_batch {
        Some(b) => (short_id(b.id.as_str()), string_of(&upper_chars(&chars_of(b.status.as_str())))),
        None => {
            proof {
                reveal_strlit("IDLE");
            }
            (String::from_str("暂无批次"), String::from_str("IDLE"))
        },
    }
}

/// The text of one stage line: its name, its status in capitals, and its
/// detail cut to 36 characters.
pub fn stage_line(stage: &DashboardStage) -> (r: (String, String, Option<String>))
    ensures
        r.0@ == stage_name(stage.stage@),
        r.1@ == ascii_upper(stage.status@),
        match &stage.detail {
            Some(d) => r.2 matches Some(t) && t@ == truncated(d@, 36),
            None => r.2 is None,
        },
{
    let name = String::from_str(stage_label(stage.stage.as_str()));
    let status = string_of(&upper_chars(&chars_of(stage.status.as_str())));
    let detail = match &stage.detail {
        Some(d) => Some(truncate(d.as_str(), 36)),
        None => None,
    };
    (name, status, detail)
}

/// The cells of one recent-alert row, the time left for the caller to
/// show: severity in capitals, kind, system (`-` when none), and the
/// subject cut to 56 characters.
pub fn alert_cells(alert: &DashboardAlert) -> (r: (String, String, String, String))
    ensures
        r.0@ == ascii_upper(alert.severity@),
        r.1@ == alert.kind@,
        r.2@ == match &alert.system_name {
            Some(s) => s@,
            None => "-"@,
        },
        r.3@ == truncated(alert.subject@, 56),
{
    let severity = string_of(&upper_chars(&chars_of(alert.severity.as_str())));
    let system = match &alert.system_name {
        Some(s) => s.clone(),
        None => String::from_str("-"),
    };
    (severity, alert.kind.clone(), system, truncate(alert.subject.as_str(), 56))
}

} // verus!
