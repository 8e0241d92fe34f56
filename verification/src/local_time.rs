//! Display-timezone parsing and formatting for human-facing output.
//!
//! A display timezone is a fixed UTC offset in seconds. The process keeps the
//! configured offset; the functions here parse it, spell it, and re-spell
//! timestamps with it.

use vstd::prelude::*;

use crate::error::{self, WatcherError};
use crate::text::{self, ascii_upper, decimal, digits_value, all_digits, trim};

verus! {

/// The display timezone used until one is configured.
pub const DEFAULT_TIMEZONE: &'static str = "+08:00";

/// The default display offset, in seconds east of UTC.
pub const DEFAULT_OFFSET_SECONDS: i32 = 28800;

/// The value `str::parse::<i32>` gives a literal: an optional sign and at
/// least one decimal digit, within the range of `i32`.
pub open spec fn signed_literal(s: Seq<char>) -> Option<int> {
    let negative = s.len() > 0 && s[0] == '-';
    let d = if s.len() > 0 && (s[0] == '+' || s[0] == '-') { s.skip(1) } else { s };
    if d.len() > 0 && all_digits(d) {
        let v: int = if negative { -(digits_value(d) as int) } else { digits_value(d) as int };
        if i32::MIN <= v <= i32::MAX { Some(v) } else { None }
    } else {
        None
    }
}

/// Parses a literal the way `str::parse::<i32>` does.
pub fn parse_i32(v: &[char]) -> (r: Option<i64>)
    ensures
        match r {
            Some(n) => signed_literal(v@) == Some(n as int),
            None => signed_literal(v@) is None,
        },
{
    let negative = v.len() > 0 && v[0] == '-';
    let signed = v.len() > 0 && (v[0] == '+' || v[0] == '-');
    let start: usize = if signed { 1 } else { 0 };
    let digits = text::sub_chars(v, start, v.len());
    let ghost d = if v@.len() > 0 && (v@[0] == '+' || v@[0] == '-') { v@.skip(1) } else { v@ };
    assert(digits@ =~= d);
    if digits.len() == 0 || digits[0] == '+' {
        proof {
            if digits@.len() > 0 {
                assert(!text::is_digit(digits@[0]));
            }
        }
        return None;
    }
    let bound: u64 = if negative { 0x8000_0001 } else { 0x8000_0000 };
    match text::parse_unsigned(&digits, bound) {
        Some(n) => {
            assert(text::unsigned_digits(digits@) =~= digits@);
            if negative {
                Some(-(n as i64))
            } else {
                Some(n as i64)
            }
        },
        None => {
            assert(text::unsigned_digits(digits@) =~= digits@);
            None
        },
    }
}

/// The fixed offset that a `+HH:MM`, `-HH:MM`, `+HH`, `+HHMM` spelling
/// denotes, in seconds, when it is a valid offset (hours at most 23,
/// minutes at most 59, less than a day in size).
pub open spec fn spec_fixed_offset(s: Seq<char>) -> Option<int> {
    if s.len() == 0 || (s[0] != '+' && s[0] != '-') {
        None
    } else {
        let sign: int = if s[0] == '+' { 1 } else { -1 };
        let rest = s.skip(1);
        let parts: Option<(int, int)> = if rest.contains(':') {
            let k = first_colon(rest);
            match (signed_literal(rest.take(k)), signed_literal(rest.skip(k + 1))) {
                (Some(h), Some(m)) => Some((h, m)),
                _ => None,
            }
        } else if rest.len() <= 2 {
            match signed_literal(rest) {
                Some(h) => Some((h, 0)),
                None => None,
            }
        } else if rest.len() == 4 {
            match (signed_literal(rest.take(2)), signed_literal(rest.skip(2))) {
                (Some(h), Some(m)) => Some((h, m)),
                _ => None,
            }
        } else {
            None
        };
        match parts {
            Some((h, m)) => if h > 23 || m > 59 {
                None
            } else {
                let secs = sign * (h * 3600 + m * 60);
                if -86400 < secs < 86400 { Some(secs) } else { None }
            },
            None => None,
        }
    }
}

/// The position of the first `:` of a sequence that holds one.
pub open spec fn first_colon(s: Seq<char>) -> int
    recommends
        s.contains(':'),
{
    choose|k: int| 0 <= k < s.len() && s[k] == ':' && forall|j: int| 0 <= j < k ==> s[j] != ':'
}

/// The index of the first `:` in `v`, if any.
fn find_colon(v: &[char]) -> (r: Option<usize>)
    ensures
        match r {
            Some(k) => k < v@.len() && v@[k as int] == ':' && forall|j: int|
                0 <= j < k ==> v@[j] != ':',
            None => !v@.contains(':'),
        },
{
    let mut i: usize = 0;
    while i < v.len()
        invariant
            i <= v@.len(),
            forall|j: int| 0 <= j < i ==> v@[j] != ':',
        decreases v.len() - i,
    {
        if v[i] == ':' {
            return Some(i);
        }
        i = i + 1;
    }
    None
}

/// Parses a fixed UTC offset (`+08:00`, `-05:30`, `+8`, `+0530`) into
/// seconds east of UTC.
pub fn parse_fixed_offset(value: &str) -> (r: Option<i32>)
    ensures
        match r {
            Some(s) => spec_fixed_offset(value@) == Some(s as int),
            None => spec_fixed_offset(value@) is None,
        },
{
    let v = text::chars_of(value);
    if v.len() == 0 || (v[0] != '+' && v[0] != '-') {
        return None;
    }
    let sign: i64 = if v[0] == '+' { 1 } else { -1 };
    let rest = text::sub_chars(&v, 1, v.len());
    assert(rest@ =~= value@.skip(1));
    let (hours, minutes) = match find_colon(&rest) {
        Some(k) => {
            proof {
                assert(rest@.contains(':'));
                let c = first_colon(rest@);
                assert(0 <= c < rest@.len() && rest@[c] == ':' && forall|j: int|
                    0 <= j < c ==> rest@[j] != ':');
                if c < k {
                } else if k < c {
                }
                assert(c == k);
            }
            let left = text::sub_chars(&rest, 0, k);
            let right = text::sub_chars(&rest, k + 1, rest.len());
            assert(left@ =~= rest@.take(k as int));
            assert(right@ =~= rest@.skip(k + 1));
            let h = parse_i32(&left);
            let m = parse_i32(&right);
            match (h, m) {
                (Some(h), Some(m)) => (h, m),
                _ => return None,
            }
        },
        None => {
            if rest.len() <= 2 {
                match parse_i32(&rest) {
                    Some(h) => (h, 0),
                    None => return None,
                }
            } else if rest.len() == 4 {
                let left = text::sub_chars(&rest, 0, 2);
                let right = text::sub_chars(&rest, 2, 4);
                assert(left@ =~= rest@.take(2));
                assert(right@ =~= rest@.skip(2));
                let h = parse_i32(&left);
                let m = parse_i32(&right);
                match (h, m) {
                    (Some(h), Some(m)) => (h, m),
                    _ => return None,
                }
            } else {
                return None;
            }
        },
    };
    if hours > 23 || minutes > 59 {
        return None;
    }
    let secs = sign * (hours * 3600 + minutes * 60);
    if -86400 < secs && secs < 86400 {
        Some(secs as i32)
    } else {
        None
    }
}

/// Two decimal digits of a value below 100, zero-padded (`{:02}`).
pub open spec fn two_digits(n: nat) -> Seq<char> {
    if n < 10 {
        seq!['0'] + decimal(n)
    } else {
        decimal(n)
    }
}

/// `s` has the shape `^[+-]\d\d:\d\d$`, with hours up to 23 and minutes up
/// to 59.
pub open spec fn offset_shaped(s: Seq<char>) -> bool {
    &&& s.len() == 6
    &&& (s[0] == '+' || s[0] == '-')
    &&& s[3] == ':'
    &&& all_digits(s.subrange(1, 3))
    &&& digits_value(s.subrange(1, 3)) <= 23
    &&& all_digits(s.subrange(4, 6))
    &&& digits_value(s.subrange(4, 6)) <= 59
}

/// The `±HH:MM` spelling of an offset below a day in size.
pub open spec fn spec_format_offset(seconds: int) -> Seq<char> {
    let a = if seconds < 0 { -seconds } else { seconds };
    seq![if seconds >= 0 { '+' } else { '-' }] + two_digits((a / 3600) as nat) + seq![':']
        + two_digits(((a % 3600) / 60) as nat)
}

/// Spells a value below 100 with two digits.
fn two_digit_chars(n: u64) -> (r: Vec<char>)
    requires
        n < 100,
    ensures
        r@ == two_digits(n as nat),
{
    if n < 10 {
        let mut r: Vec<char> = Vec::new();
        r.push('0');
        let mut d = text::decimal_chars(n);
        r.append(&mut d);
        r
    } else {
        text::decimal_chars(n)
    }
}

/// Spells an offset in seconds as `±HH:MM`.
pub fn format_offset(seconds: i32) -> (s: String)
    requires
        -86400 < seconds < 86400,
    ensures
        s@ == spec_format_offset(seconds as int),
{
    let absolute: u64 = if seconds < 0 { (-(seconds as i64)) as u64 } else { seconds as u64 };
    let mut v: Vec<char> = Vec::new();
    v.push(if seconds >= 0 { '+' } else { '-' });
    let mut hh = two_digit_chars(absolute / 3600);
    v.append(&mut hh);
    v.push(':');
    let mut mm = two_digit_chars((absolute % 3600) / 60);
    v.append(&mut mm);
    text::string_of(&v)
}

/// What a display-timezone setting is first rewritten to before it is
/// parsed as a fixed offset.
pub open spec fn normalized_timezone(value: Seq<char>) -> Seq<char> {
    let upper = ascii_upper(value);
    if upper == "Z"@ || upper == "UTC"@ {
        "+00:00"@
    } else if upper == "ASIA/SHANGHAI"@ || upper == "ASIA/CHONGQING"@ || upper
        == "ASIA/HONG_KONG"@ || upper == "ASIA/TAIPEI"@ {
        "+08:00"@
    } else if text::starts_with(value, "UTC"@) {
        value.skip(3)
    } else if text::starts_with(value, "utc"@) {
        value.skip(3)
    } else {
        value
    }
}

/// The offset a display-timezone setting denotes, if it is valid.
pub open spec fn spec_timezone(timezone: Seq<char>) -> Option<int> {
    spec_fixed_offset(normalized_timezone(trim(timezone)))
}

/// Parses a display-timezone setting: a fixed offset (`+08:00`, `-05:30`,
/// `UTC+8`), `UTC`/`Z`, or one of the China-coast zone names, into seconds
/// east of UTC.
pub fn parse_timezone(timezone: &str) -> (r: Result<i32, WatcherError>)
    ensures
        trim(timezone@).len() == 0 ==> (r matches Err(e) && e.is_invalid_with(
            "display timezone must not be empty"@,
        )),
        trim(timezone@).len() > 0 ==> match r {
            Ok(s) => spec_timezone(timezone@) == Some(s as int),
            Err(e) => spec_timezone(timezone@) is None && e.is_invalid_with(
                "invalid display timezone `"@ + timezone@
                    + "`; use +08:00, -05:30, UTC+8, or UTC"@,
            ),
        },
{
    let value = text::trimmed(timezone);
    if value.len() == 0 {
        return Err(error::invalid("display timezone must not be empty"));
    }
    let upper = text::upper_chars(&value);
    let normalized: Vec<char> = if text::chars_eq_str(&upper, "Z") || text::chars_eq_str(&upper, "UTC") {
        text::chars_of("+00:00")
    } else if text::chars_eq_str(&upper, "ASIA/SHANGHAI") || text::chars_eq_str(&upper, "ASIA/CHONGQING")
        || text::chars_eq_str(&upper, "ASIA/HONG_KONG") || text::chars_eq_str(&upper, "ASIA/TAIPEI") {
        text::chars_of("+08:00")
    } else {
        let utc_upper = text::chars_of("UTC");
        let utc_lower = text::chars_of("utc");
        proof {
            reveal_strlit("UTC");
            reveal_strlit("utc");
        }
        if text::starts_with_chars(&value, &utc_upper) || text::starts_with_chars(&value, &utc_lower) {
            text::sub_chars(&value, 3, value.len())
        } else {
            value
        }
    };
    let normalized_text = text::string_of(&normalized);
    match parse_fixed_offset(normalized_text.as_str()) {
        Some(s) => Ok(s),
        None => Err(error::invalid3(
            "invalid display timezone `",
            timezone,
            "`; use +08:00, -05:30, UTC+8, or UTC",
        )),
    }
}

/// Parses the display timezone to configure; the caller keeps the offset
/// for later formatting.
pub fn configure(timezone: &str) -> (r: Result<i32, WatcherError>)
    ensures
        r is Ok <==> configure_accepts(timezone@),
        r matches Ok(s) ==> spec_timezone(timezone@) == Some(s as int) && -86400 < s < 86400,
{
    parse_timezone(timezone)
}

/// A display-timezone setting that [`configure`] accepts.
pub open spec fn configure_accepts(timezone: Seq<char>) -> bool {
    trim(timezone).len() > 0 && spec_timezone(timezone) is Some
}

/// The last of these settings, taken in order, that [`configure`] accepts.
pub open spec fn last_accepted(settings: Seq<Seq<char>>) -> Option<Seq<char>>
    decreases settings.len(),
{
    if settings.len() == 0 {
        None
    } else if configure_accepts(settings.last()) {
        Some(settings.last())
    } else {
        last_accepted(settings.drop_last())
    }
}

/// The display offset after [`configure`] was called with these settings in
/// order: that of the last accepted one, or the default when none was.
pub open spec fn offset_after(settings: Seq<Seq<char>>) -> int {
    match last_accepted(settings) {
        Some(t) => spec_timezone(t).unwrap(),
        None => DEFAULT_OFFSET_SECONDS as int,
    }
}

/// The spelling of the configured display offset.
pub fn configured_timezone(offset_seconds: i32) -> (s: String)
    requires
        -86400 < offset_seconds < 86400,
    ensures
        s@ == spec_format_offset(offset_seconds as int),
        offset_shaped(s@),
{
    proof {
        lemma_offset_shape(offset_seconds as int);
    }
    format_offset(offset_seconds)
}

/// The RFC 3339 spelling, at the given UTC offset, of the instant that an
/// RFC 3339 timestamp denotes, as chrono's `with_timezone(..).to_rfc3339()`
/// gives it, or `None` when the text does not parse.
pub uninterp spec fn rfc3339_at_offset(text: Seq<char>, offset_seconds: int) -> Option<Seq<char>>;

/// Re-spells an RFC 3339 timestamp at a fixed offset.
///
/// Calls `chrono::DateTime::parse_from_rfc3339`, `FixedOffset::east_opt`
/// and `to_rfc3339`; the result is named by [`rfc3339_at_offset`].
#[verifier::external_body]
fn respell_rfc3339(value: &str, offset_seconds: i32) -> (r: Option<String>)
    requires
        -86400 < offset_seconds < 86400,
    ensures
        crate::db::sql::opt_view(r) == rfc3339_at_offset(value@, offset_seconds as int),
{
    let offset = chrono::FixedOffset::east_opt(offset_seconds)?;
    chrono::DateTime::parse_from_rfc3339(value).ok().map(|t| t.with_timezone(&offset).to_rfc3339())
}

/// What a timestamp shows at the display offset: its re-spelling, or the
/// text itself when it is not RFC 3339.
pub open spec fn spec_to_local(text: Seq<char>, offset_seconds: int) -> Seq<char> {
    match rfc3339_at_offset(text, offset_seconds) {
        Some(t) => t,
        None => text,
    }
}

/// Formats an RFC 3339 timestamp at the display offset; text that does not
/// parse is returned unchanged.
pub fn rfc3339_to_local(value: &str, offset_seconds: i32) -> (s: String)
    requires
        -86400 < offset_seconds < 86400,
    ensures
        s@ == spec_to_local(value@, offset_seconds as int),
{
    match respell_rfc3339(value, offset_seconds) {
        Some(t) => t,
        None => String::from_str(value),
    }
}

/// Formats an optional RFC 3339 timestamp at the display offset; an absent
/// one shows as `-`.
pub fn optional_rfc3339_to_local(value: Option<&str>, offset_seconds: i32) -> (s: String)
    requires
        -86400 < offset_seconds < 86400,
    ensures
        match value {
            Some(v) => s@ == spec_to_local(v@, offset_seconds as int),
            None => s@ == "-"@,
        },
{
    match value {
        Some(v) => rfc3339_to_local(v, offset_seconds),
        None => String::from_str("-"),
    }
}

/// Reading back the spelling of a whole-minute offset below a day in size
/// gives the same offset.
pub proof fn lemma_offset_roundtrip(seconds: int)
    requires
        -86400 < seconds < 86400,
        seconds % 60 == 0,
    ensures
        spec_fixed_offset(spec_format_offset(seconds)) == Some(seconds),
{
    let a = if seconds < 0 { -seconds } else { seconds };
    assert(a % 60 == 0);
    let h = a / 3600;
    let m = (a % 3600) / 60;
    assert(0 <= h <= 23);
    assert(0 <= m <= 59);
    assert(a == h * 3600 + m * 60) by (nonlinear_arith)
        requires
            a >= 0,
            a % 60 == 0,
            h == a / 3600,
            m == (a % 3600) / 60,
    ;
    lemma_two_digits_literal(h as nat);
    lemma_two_digits_literal(m as nat);
    let hs = two_digits(h as nat);
    let ms = two_digits(m as nat);
    let s = spec_format_offset(seconds);
    assert(s[0] == '+' || s[0] == '-');
    assert(s[0] == '+' <==> seconds >= 0);
    let rest = s.skip(1);
    assert(rest =~= hs + seq![':'] + ms);
    assert(rest[2] == ':');
    assert forall|j: int| 0 <= j < 2 implies rest[j] != ':' by {
        assert(rest[j] == hs[j]);
        assert(text::is_digit(hs[j]));
    }
    assert(rest.contains(':'));
    assert(0 <= 2 < rest.len() && rest[2] == ':' && forall|j: int| 0 <= j < 2 ==> rest[j] != ':');
    let k = first_colon(rest);
    assert(0 <= k < rest.len() && rest[k] == ':' && forall|j: int| 0 <= j < k ==> rest[j] != ':');
    if k < 2 {
        assert(rest[k] != ':');
    }
    if k > 2 {
        assert(rest[2] != ':');
    }
    assert(k == 2);
    assert(rest.take(2) =~= hs);
    assert(rest.skip(3) =~= ms);
    assert(signed_literal(rest.take(k)) == Some(h));
    assert(signed_literal(rest.skip(k + 1)) == Some(m));
}

/// The spelling of an offset below a day in size is a sign (`+` for east of
/// UTC and for UTC itself), two digits of hours up to 23, a colon, and two
/// digits of minutes up to 59.
pub proof fn lemma_offset_shape(seconds: int)
    requires
        -86400 < seconds < 86400,
    ensures
        spec_format_offset(seconds).len() == 6,
        spec_format_offset(seconds)[0] == (if seconds >= 0 { '+' } else { '-' }),
        spec_format_offset(seconds)[3] == ':',
        all_digits(spec_format_offset(seconds).subrange(1, 3)),
        digits_value(spec_format_offset(seconds).subrange(1, 3)) <= 23,
        all_digits(spec_format_offset(seconds).subrange(4, 6)),
        digits_value(spec_format_offset(seconds).subrange(4, 6)) <= 59,
{
    let a = if seconds < 0 { -seconds } else { seconds };
    let h = a / 3600;
    let m = (a % 3600) / 60;
    assert(0 <= h <= 23);
    assert(0 <= m <= 59);
    lemma_two_digits_literal(h as nat);
    lemma_two_digits_literal(m as nat);
    let hs = two_digits(h as nat);
    let ms = two_digits(m as nat);
    let s = spec_format_offset(seconds);
    assert(s.subrange(1, 3) =~= hs);
    assert(s.subrange(4, 6) =~= ms);
    assert(text::is_digit(hs[0]));
    assert(text::is_digit(ms[0]));
    assert(digits_value(hs) == h);
    assert(digits_value(ms) == m);
}

/// Every offset a display-timezone setting denotes is less than a day in
/// size, so its spelling is a sign, two digits of hours up to 23, a colon
/// and two digits of minutes up to 59.
pub proof fn lemma_configured_shape(timezone: Seq<char>)
    requires
        spec_timezone(timezone) is Some,
    ensures
        -86400 < spec_timezone(timezone).unwrap() < 86400,
        spec_format_offset(spec_timezone(timezone).unwrap()).len() == 6,
        spec_format_offset(spec_timezone(timezone).unwrap())[3] == ':',
        digits_value(spec_format_offset(spec_timezone(timezone).unwrap()).subrange(1, 3)) <= 23,
        digits_value(spec_format_offset(spec_timezone(timezone).unwrap()).subrange(4, 6)) <= 59,
{
    lemma_offset_shape(spec_timezone(timezone).unwrap());
}

/// The default display offset is spelled `+08:00`.
pub proof fn lemma_default_offset_spelling()
    ensures
        spec_format_offset(DEFAULT_OFFSET_SECONDS as int) == "+08:00"@,
{
    reveal_strlit("+08:00");
    assert(decimal(8) == seq!['8']);
    assert(decimal(0) == seq!['0']);
    assert(two_digits(8) =~= seq!['0', '8']);
    assert(two_digits(0) =~= seq!['0', '0']);
    assert(spec_format_offset(28800) =~= seq!['+', '0', '8', ':', '0', '0']);
}

/// One more call of [`configure`]: an accepted setting becomes the display
/// offset, a refused one leaves the offset as it was.
pub proof fn lemma_configure_step(settings: Seq<Seq<char>>, timezone: Seq<char>)
    ensures
        configure_accepts(timezone) ==> offset_after(settings.push(timezone)) == spec_timezone(timezone).unwrap(),
        !configure_accepts(timezone) ==> offset_after(settings.push(timezone)) == offset_after(settings),
{
    assert(settings.push(timezone).last() == timezone);
    assert(settings.push(timezone).drop_last() =~= settings);
}

/// The last accepted setting is one of the settings, and is accepted.
proof fn lemma_last_accepted(settings: Seq<Seq<char>>)
    ensures
        last_accepted(settings) matches Some(t) ==> configure_accepts(t),
    decreases settings.len(),
{
    if settings.len() > 0 && !configure_accepts(settings.last()) {
        lemma_last_accepted(settings.drop_last());
    }
}

/// The spelling of a whole-minute offset below a day in size is itself a
/// setting that [`configure`] accepts, and it denotes that offset.
pub proof fn lemma_spelling_configures(seconds: int)
    requires
        -86400 < seconds < 86400,
        seconds % 60 == 0,
    ensures
        configure_accepts(spec_format_offset(seconds)),
        spec_timezone(spec_format_offset(seconds)) == Some(seconds),
{
    let t = spec_format_offset(seconds);
    lemma_offset_shape(seconds);
    lemma_offset_roundtrip(seconds);
    assert(t[0] == '+' || t[0] == '-');
    assert(!text::is_ws(t[0]));
    assert(text::trim_start(t) == t);
    assert(text::is_digit(t.subrange(4, 6)[1]));
    assert(t.last() == t.subrange(4, 6)[1]);
    assert(!text::is_ws(t.last()));
    assert(text::trim_end(t) == t);
    assert(trim(t) == t);
    reveal_strlit("Z");
    reveal_strlit("UTC");
    reveal_strlit("utc");
    reveal_strlit("ASIA/SHANGHAI");
    reveal_strlit("ASIA/CHONGQING");
    reveal_strlit("ASIA/HONG_KONG");
    reveal_strlit("ASIA/TAIPEI");
    assert(ascii_upper(t).len() == 6);
    assert(t.take(3)[0] != 'U' && t.take(3)[0] != 'u');
    assert(!text::starts_with(t, "UTC"@));
    assert(!text::starts_with(t, "utc"@));
    assert(normalized_timezone(t) == t);
}

/// Whatever [`configure`] calls came before, the configured timezone is
/// spelled as a sign, two digits of hours up to 23, a colon and two digits
/// of minutes up to 59. It is `+08:00` when no call was accepted, and when
/// the last accepted setting was `+08:00`.
pub proof fn lemma_configured_timezone_after(settings: Seq<Seq<char>>)
    ensures
        -86400 < offset_after(settings) < 86400,
        spec_format_offset(offset_after(settings)).len() == 6,
        spec_format_offset(offset_after(settings))[0] == '+' || spec_format_offset(offset_after(settings))[0] == '-',
        spec_format_offset(offset_after(settings))[3] == ':',
        all_digits(spec_format_offset(offset_after(settings)).subrange(1, 3)),
        digits_value(spec_format_offset(offset_after(settings)).subrange(1, 3)) <= 23,
        all_digits(spec_format_offset(offset_after(settings)).subrange(4, 6)),
        digits_value(spec_format_offset(offset_after(settings)).subrange(4, 6)) <= 59,
        offset_shaped(spec_format_offset(offset_after(settings))),
        last_accepted(settings) is None ==> spec_format_offset(offset_after(settings)) == "+08:00"@,
        last_accepted(settings) == Some("+08:00"@) ==> spec_format_offset(offset_after(settings)) == "+08:00"@,
{
    lemma_last_accepted(settings);
    lemma_default_offset_spelling();
    if let Some(t) = last_accepted(settings) {
        lemma_configured_shape(t);
    }
    lemma_offset_shape(offset_after(settings));
    if last_accepted(settings) == Some("+08:00"@) {
        lemma_spelling_configures(DEFAULT_OFFSET_SECONDS as int);
    }
}

/// A two-digit spelling reads back as its value.
proof fn lemma_two_digits_literal(n: nat)
    requires
        n < 100,
    ensures
        signed_literal(two_digits(n)) == Some(n as int),
        two_digits(n).len() == 2,
        all_digits(two_digits(n)),
{
    text::lemma_decimal_digits(n);
    text::lemma_decimal_value(n);
    let d = decimal(n);
    if n < 10 {
        let t = seq!['0'] + d;
        assert(t.drop_last() =~= seq!['0']);
        assert(seq!['0'].drop_last() =~= Seq::<char>::empty());
        assert(digits_value(Seq::<char>::empty()) == 0);
        assert(seq!['0'].last() == '0');
        assert(text::digit_value('0') == 0);
        assert(digits_value(seq!['0']) == 0);
        assert(d.len() == 1);
        assert(t.last() == d[0]);
        assert(d.drop_last() =~= Seq::<char>::empty());
        assert(digits_value(t) == digits_value(d));
        assert forall|i: int| 0 <= i < t.len() implies text::is_digit(#[trigger] t[i]) by {
            if i > 0 {
                assert(t[i] == d[i - 1]);
            }
        }
    } else {
        assert(d.len() == 2) by {
            assert(decimal(n / 10).len() == 1);
        }
    }
}

/// The current time at the display offset in RFC 3339 form: the clock's UTC
/// reading re-spelled at the offset. The reading depends on the clock, so
/// only the re-spelling is stated.
pub fn now_rfc3339(offset_seconds: i32) -> (s: String)
    requires
        -86400 < offset_seconds < 86400,
    ensures
        exists|utc: Seq<char>| s@ == #[trigger] spec_to_local(utc, offset_seconds as int),
{
    let utc = crate::db::sql::now();
    let s = rfc3339_to_local(utc.as_str(), offset_seconds);
    assert(s@ == spec_to_local(utc@, offset_seconds as int));
    s
}

/// A stored UTC timestamp shown at the display offset.
pub fn utc_to_local(value: &str, offset_seconds: i32) -> (s: String)
    requires
        -86400 < offset_seconds < 86400,
    ensures
        s@ == spec_to_local(value@, offset_seconds as int),
{
    rfc3339_to_local(value, offset_seconds)
}

} // verus!
