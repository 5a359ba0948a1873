//! Resolution of human time expressions into concrete UTC windows.
//!
//! Instants are milliseconds since 1970-01-01T00:00:00Z. The proleptic
//! Gregorian calendar from that epoch onward is specified here directly:
//! `days_to_year` and `days_to_month` sum year and month lengths, and the
//! executable conversions are proved against those sums in both directions.

use vstd::prelude::*;

use chrono::TimeZone as _;

use crate::text::{all_digits, digit_char, digits_val, pow10};

verus! {

pub const MS_PER_SECOND: u64 = 1000;

pub const MS_PER_MINUTE: u64 = 60000;

pub const MS_PER_HOUR: u64 = 3600000;

pub const MS_PER_DAY: u64 = 86400000;

/// Gregorian leap-year rule.
pub open spec fn is_leap_year(y: int) -> bool {
    (y % 4 == 0 && y % 100 != 0) || y % 400 == 0
}

/// Days in year `y`.
pub open spec fn year_length(y: int) -> int {
    if is_leap_year(y) {
        366
    } else {
        365
    }
}

/// Days in month `m` of year `y`, for `1 <= m <= 12`.
pub open spec fn month_length(y: int, m: int) -> int {
    if m == 2 {
        if is_leap_year(y) {
            29
        } else {
            28
        }
    } else if m == 4 || m == 6 || m == 9 || m == 11 {
        30
    } else {
        31
    }
}

/// Days from 1970-01-01 to the first day of year `y`.
pub open spec fn days_to_year(y: int) -> int
    decreases y,
{
    if y <= 1970 {
        0
    } else {
        days_to_year(y - 1) + year_length(y - 1)
    }
}

/// Days from the first day of year `y` to the first day of its month `m`.
pub open spec fn days_to_month(y: int, m: int) -> int
    decreases m,
{
    if m <= 1 {
        0
    } else {
        days_to_month(y, m - 1) + month_length(y, m - 1)
    }
}

/// Days from 1970-01-01 to the civil date `y-m-d`.
pub open spec fn epoch_days(y: int, m: int, d: int) -> int {
    days_to_year(y) + days_to_month(y, m) + d - 1
}

/// Milliseconds since the epoch of the civil time `y-m-d h:mi:s.ms` in UTC.
pub open spec fn calendar_millis(y: int, m: int, d: int, h: int, mi: int, s: int, ms: int) -> int {
    epoch_days(y, m, d) * 86400000 + h * 3600000 + mi * 60000 + s * 1000 + ms
}

/// A civil (calendar) UTC time at millisecond precision.
#[derive(Clone, Copy, Debug, PartialEq, Eq, Structural)]
pub struct Civil {
    pub year: u64,
    pub month: u64,
    pub day: u64,
    pub hour: u64,
    pub minute: u64,
    pub second: u64,
    pub milli: u64,
}

impl Civil {
    /// Field ranges that every civil time produced or consumed here obeys.
    /// The year is not bounded above; `valid` adds the four-digit bound that
    /// the text forms can carry.
    pub open spec fn wf(self) -> bool {
        &&& 1970 <= self.year
    &&& 1 <= self.month <= 12
    &&& 1 <= self.day <= month_length(self.year as int, self.month as int)
    &&& self.hour < 24
    &&& self.minute < 60
    &&& self.second < 60
    &&& self.milli < 1000
    }

    /// A civil time that four-digit-year text can denote.
    pub open spec fn valid(self) -> bool {
        self.wf() && self.year <= 9999
    }

    /// The instant this civil UTC time denotes.
    pub open spec fn millis(self) -> int {
        calendar_millis(
            self.year as int,
            self.month as int,
            self.day as int,
            self.hour as int,
            self.minute as int,
            self.second as int,
            self.milli as int,
        )
    }
}

/// Splits days since the epoch into a year and the day offset within it.
pub open spec fn split_year(days: int, y: int) -> (int, int)
    decreases days,
{
    if days < year_length(y) {
        (y, days)
    } else {
        split_year(days - year_length(y), y + 1)
    }
}

/// Splits a day offset within year `y` into a month and the day offset
/// within it.
pub open spec fn split_month(y: int, doy: int, m: int) -> (int, int)
    decreases 13 - m,
{
    if m >= 12 || doy < month_length(y, m) {
        (m, doy)
    } else {
        split_month(y, doy - month_length(y, m), m + 1)
    }
}

/// The civil UTC time of an instant, by peeling days off whole years and
/// then whole months.
pub open spec fn civil_of_millis(ms: int) -> Civil {
    let days = ms / 86400000;
    let rem = ms % 86400000;
    let (y, doy) = split_year(days, 1970);
    let (m, dom) = split_month(y, doy, 1);
    Civil {
        year: y as u64,
        month: m as u64,
        day: (dom + 1) as u64,
        hour: (rem / 3600000) as u64,
        minute: ((rem % 3600000) / 60000) as u64,
        second: (((rem % 3600000) % 60000) / 1000) as u64,
        milli: (((rem % 3600000) % 60000) % 1000) as u64,
    }
}

/// Days in month `m` of year `y`.
pub fn month_length_of(y: u64, m: u64) -> (r: u64)
    requires
        1 <= m <= 12,
    ensures
        r == month_length(y as int, m as int),
{
    if m == 2 {
        if (y % 4 == 0 && y % 100 != 0) || y % 400 == 0 {
            29
        } else {
            28
        }
    } else if m == 4 || m == 6 || m == 9 || m == 11 {
        30
    } else {
        31
    }
}

fn year_length_of(y: u64) -> (r: u64)
    ensures
        r == year_length(y as int),
{
    if (y % 4 == 0 && y % 100 != 0) || y % 400 == 0 {
        366
    } else {
        365
    }
}

/// The instant a valid civil UTC time denotes.
pub fn civil_to_millis(c: &Civil) -> (ms: u64)
    requires
        c.valid(),
    ensures
        ms == c.millis(),
{
    let mut days: u64 = 0;
    let mut y: u64 = 1970;
    while y < c.year
        invariant
            1970 <= y <= c.year <= 9999,
            days == days_to_year(y as int),
            days <= (y - 1970) * 366,
        decreases c.year - y,
    {
        proof {
            assert((y + 1 - 1970) * 366 == (y - 1970) * 366 + 366);
        }
        days = days + year_length_of(y);
        y = y + 1;
    }
    let mut m: u64 = 1;
    while m < c.month
        invariant
            1 <= m <= c.month <= 12,
            1970 <= c.year <= 9999,
            days == days_to_year(c.year as int) + days_to_month(c.year as int, m as int),
            days_to_year(c.year as int) <= (c.year - 1970) * 366,
            days_to_month(c.year as int, m as int) <= 31 * (m - 1),
        decreases c.month - m,
    {
        proof {
            assert(days_to_year(c.year as int) <= 8029 * 366);
            assert(days_to_month(c.year as int, m as int) <= 31 * 11);
            assert(month_length(c.year as int, m as int) <= 31);
        }
        days = days + month_length_of(c.year, m);
        m = m + 1;
    }
    let days_total: u64 = days + (c.day - 1);
    proof {
        assert(days_total <= 8029 * 366 + 31 * 12 + 31);
    }
    days_total * MS_PER_DAY + c.hour * MS_PER_HOUR + c.minute * MS_PER_MINUTE + c.second
        * MS_PER_SECOND + c.milli
}

/// The civil UTC time of an instant; inverse of `civil_to_millis` by its
/// two postconditions.
pub fn millis_to_civil(ms: u64) -> (c: Civil)
    ensures
        c == civil_of_millis(ms as int),
        c.wf(),
        c.millis() == ms as int,
{
    let days: u64 = ms / MS_PER_DAY;
    let rem: u64 = ms % MS_PER_DAY;
    proof {
        vstd::arithmetic::div_mod::lemma_fundamental_div_mod(ms as int, 86400000);
        assert(days <= 213503982335);
    }
    let mut y: u64 = 1970;
    let mut doy: u64 = days;
    loop
        invariant
            1970 <= y,
            days <= 213503982335,
            days_to_year(y as int) >= y - 1970,
            split_year(days as int, 1970) == split_year(doy as int, y as int),
            days == days_to_year(y as int) + doy,
        ensures
            1970 <= y,
            days == days_to_year(y as int) + doy,
            doy < year_length(y as int),
            split_year(days as int, 1970) == (y as int, doy as int),
        decreases doy,
    {
        let len = year_length_of(y);
        if doy < len {
            break;
        }
        doy = doy - len;
        y = y + 1;
    }
    let mut m: u64 = 1;
    let mut dom: u64 = doy;
    loop
        invariant
            1 <= m <= 12,
            dom <= doy,
            split_month(y as int, doy as int, 1) == split_month(y as int, dom as int, m as int),
            doy == days_to_month(y as int, m as int) + dom,
            doy < year_length(y as int),
        ensures
            1 <= m <= 12,
            doy == days_to_month(y as int, m as int) + dom,
            doy < year_length(y as int),
            m < 12 ==> dom < month_length(y as int, m as int),
            split_month(y as int, doy as int, 1) == (m as int, dom as int),
        decreases 12 - m,
    {
        if m >= 12 {
            break;
        }
        let len = month_length_of(y, m);
        if dom < len {
            break;
        }
        dom = dom - len;
        m = m + 1;
    }
    proof {
        lemma_dom_in_month(y as int, doy as int, dom as int, m as int);
    }
    let hour: u64 = rem / MS_PER_HOUR;
    let rem_h: u64 = rem % MS_PER_HOUR;
    let minute: u64 = rem_h / MS_PER_MINUTE;
    let rem_m: u64 = rem_h % MS_PER_MINUTE;
    let second: u64 = rem_m / MS_PER_SECOND;
    let milli: u64 = rem_m % MS_PER_SECOND;
    proof {
        vstd::arithmetic::div_mod::lemma_fundamental_div_mod(rem as int, 3600000);
        vstd::arithmetic::div_mod::lemma_fundamental_div_mod(rem_h as int, 60000);
        vstd::arithmetic::div_mod::lemma_fundamental_div_mod(rem_m as int, 1000);
        assert(rem < 86400000);
        assert(hour < 24) by (nonlinear_arith)
            requires
                rem < 86400000,
                hour == rem as int / 3600000,
                rem >= 0,
        ;
        assert(minute < 60) by (nonlinear_arith)
            requires
                rem_h < 3600000,
                minute == rem_h as int / 60000,
                rem_h >= 0,
        ;
    }
    let c = Civil { year: y, month: m, day: dom + 1, hour, minute, second, milli };
    proof {
        assert(c.millis() == ms as int) by {
            assert(epoch_days(y as int, m as int, dom + 1) == days as int);
            assert(rem as int == hour * 3600000 + rem_h as int);
            assert(rem_h as int == minute * 60000 + rem_m as int);
            assert(rem_m as int == second * 1000 + milli as int);
        };
    }
    c
}

/// Within a year, the month split leaves a day offset inside the month.
proof fn lemma_dom_in_month(y: int, doy: int, dom: int, m: int)
    requires
        0 <= dom,
        1 <= m <= 12,
        doy == days_to_month(y, m) + dom,
        doy < year_length(y),
        m < 12 ==> dom < month_length(y, m),
    ensures
        dom < month_length(y, m),
{
    if m == 12 {
        assert(days_to_month(y, 12) + month_length(y, 12) == year_length(y)) by {
            lemma_months_sum(y);
        };
    }
}

/// The twelve month lengths of a year sum to the year length.
proof fn lemma_months_sum(y: int)
    ensures
        days_to_month(y, 12) + month_length(y, 12) == year_length(y),
{
    assert(days_to_month(y, 1) == 0);
    assert(days_to_month(y, 2) == 31);
    assert(days_to_month(y, 3) == 31 + month_length(y, 2));
    assert(days_to_month(y, 4) == days_to_month(y, 3) + 31);
    assert(days_to_month(y, 5) == days_to_month(y, 4) + 30);
    assert(days_to_month(y, 6) == days_to_month(y, 5) + 31);
    assert(days_to_month(y, 7) == days_to_month(y, 6) + 30);
    assert(days_to_month(y, 8) == days_to_month(y, 7) + 31);
    assert(days_to_month(y, 9) == days_to_month(y, 8) + 31);
    assert(days_to_month(y, 10) == days_to_month(y, 9) + 30);
    assert(days_to_month(y, 11) == days_to_month(y, 10) + 31);
    assert(days_to_month(y, 12) == days_to_month(y, 11) + 30);
}

/// Two-digit zero-padded decimal text.
pub open spec fn pad2(n: int) -> Seq<char> {
    seq![digit_char((n / 10) % 10), digit_char(n % 10)]
}

/// Three-digit zero-padded decimal text.
pub open spec fn pad3(n: int) -> Seq<char> {
    seq![digit_char((n / 100) % 10), digit_char((n / 10) % 10), digit_char(n % 10)]
}

/// Four-digit zero-padded decimal text.
pub open spec fn pad4(n: int) -> Seq<char> {
    seq![
        digit_char((n / 1000) % 10),
        digit_char((n / 100) % 10),
        digit_char((n / 10) % 10),
        digit_char(n % 10),
    ]
}

/// The RFC-3339 UTC rendering of a civil time, at millisecond precision.
pub open spec fn rfc_text(c: Civil) -> Seq<char> {
    pad4(c.year as int) + seq!['-'] + pad2(c.month as int) + seq!['-'] + pad2(c.day as int)
        + seq!['T'] + pad2(c.hour as int) + seq![':'] + pad2(c.minute as int) + seq![':'] + pad2(
        c.second as int,
    ) + seq!['.'] + pad3(c.milli as int) + seq!['Z']
}

/// The RFC-3339 UTC rendering of an instant.
pub open spec fn spec_rfc3339(ms: int) -> Seq<char> {
    rfc_text(civil_of_millis(ms))
}

fn append_pad2(out: &mut String, n: u64)
    ensures
        final(out)@ == old(out)@ + pad2(n as int),
{
    out.append(crate::text::digit_str((n / 10) % 10));
    out.append(crate::text::digit_str(n % 10));
    proof {
        assert(out@ =~= old(out)@ + pad2(n as int));
    }
}

/// Renders a civil UTC time as RFC-3339 text with millisecond precision.
#[verifier::rlimit(60)]
pub fn format_civil(c: &Civil) -> (r: String)
    ensures
        r@ == rfc_text(*c),
{
    let mut out = String::new();
    out.append(crate::text::digit_str((c.year / 1000) % 10));
    out.append(crate::text::digit_str((c.year / 100) % 10));
    out.append(crate::text::digit_str((c.year / 10) % 10));
    out.append(crate::text::digit_str(c.year % 10));
    out.append("-");
    append_pad2(&mut out, c.month);
    out.append("-");
    append_pad2(&mut out, c.day);
    out.append("T");
    append_pad2(&mut out, c.hour);
    out.append(":");
    append_pad2(&mut out, c.minute);
    out.append(":");
    append_pad2(&mut out, c.second);
    out.append(".");
    out.append(crate::text::digit_str((c.milli / 100) % 10));
    out.append(crate::text::digit_str((c.milli / 10) % 10));
    out.append(crate::text::digit_str(c.milli % 10));
    out.append("Z");
    proof {
        reveal_strlit("-");
        reveal_strlit("T");
        reveal_strlit(":");
        reveal_strlit(".");
        reveal_strlit("Z");
        assert(out@ =~= rfc_text(*c));
    }
    out
}

/// Renders an instant as RFC-3339 UTC text with millisecond precision.
pub fn format_rfc3339(ms: u64) -> (r: String)
    ensures
        r@ == spec_rfc3339(ms as int),
{
    let c = millis_to_civil(ms);
    format_civil(&c)
}

/// Whether the expression is the word `now`.
pub open spec fn expr_is_now(s: Seq<char>) -> bool {
    s == "now"@
}

/// Whether the expression is a digit count followed by the given unit
/// suffix, as in `15 minutes ago`.
pub open spec fn ago_parts(s: Seq<char>, suffix: Seq<char>) -> bool {
    &&& s.len() > suffix.len()
    &&& s.len() - suffix.len() <= 19
    &&& s.subrange(s.len() - suffix.len(), s.len() as int) == suffix
    &&& all_digits(s.subrange(0, s.len() - suffix.len()))
}

/// The count in front of an `ago` unit suffix.
pub open spec fn ago_count(s: Seq<char>, suffix: Seq<char>) -> int {
    digits_val(s.subrange(0, s.len() - suffix.len()))
}

/// What an expression denotes against a reference instant: a concrete
/// window, a civil time still needing the local zone, or nothing.
pub enum Resolution {
    Exact { from: int, to: int },
    Local,
    Invalid,
}

/// The window of a relative expression: the unit-wide span starting the
/// counted number of units before the reference instant.
pub open spec fn ago_resolution(refm: int, n: int, unit: int) -> Resolution {
    Resolution::Exact { from: refm - n * unit, to: refm - n * unit + unit }
}

/// `YYYY-MM-DD` layout at offset `off`.
pub open spec fn layout_date(s: Seq<char>, off: int) -> bool {
    &&& all_digits(s.subrange(off, off + 4))
    &&& s[off + 4] == '-'
    &&& all_digits(s.subrange(off + 5, off + 7))
    &&& s[off + 7] == '-'
    &&& all_digits(s.subrange(off + 8, off + 10))
}

/// `HH:MM:SS` layout at offset `off`.
pub open spec fn layout_time(s: Seq<char>, off: int) -> bool {
    &&& all_digits(s.subrange(off, off + 2))
    &&& s[off + 2] == ':'
    &&& all_digits(s.subrange(off + 3, off + 5))
    &&& s[off + 5] == ':'
    &&& all_digits(s.subrange(off + 6, off + 8))
}

pub open spec fn date_year(s: Seq<char>) -> int {
    digits_val(s.subrange(0, 4))
}

pub open spec fn date_month(s: Seq<char>) -> int {
    digits_val(s.subrange(5, 7))
}

pub open spec fn date_day(s: Seq<char>) -> int {
    digits_val(s.subrange(8, 10))
}

pub open spec fn time_hour(s: Seq<char>) -> int {
    digits_val(s.subrange(11, 13))
}

pub open spec fn time_minute(s: Seq<char>) -> int {
    digits_val(s.subrange(14, 16))
}

pub open spec fn time_second(s: Seq<char>) -> int {
    digits_val(s.subrange(17, 19))
}

/// Field ranges a parsed civil time must satisfy.
pub open spec fn civil_fields_ok(y: int, m: int, d: int, h: int, mi: int, sec: int) -> bool {
    &&& 1970 <= y
    &&& 1 <= m <= 12
    &&& 1 <= d <= month_length(y, m)
    &&& h < 24
    &&& mi < 60
    &&& sec < 60
}

/// RFC-3339 UTC literal, with or without a millisecond part.
pub open spec fn abs_utc_shape(s: Seq<char>) -> bool {
    ||| (s.len() == 24 && layout_date(s, 0) && s[10] == 'T' && layout_time(s, 11) && s[19] == '.'
        && all_digits(s.subrange(20, 23)) && s[23] == 'Z')
    ||| (s.len() == 20 && layout_date(s, 0) && s[10] == 'T' && layout_time(s, 11) && s[19] == 'Z')
}

/// The instant pair an RFC-3339 UTC literal denotes, when its fields are
/// in range.
pub open spec fn abs_utc_resolution(s: Seq<char>) -> Resolution {
    let y = date_year(s);
    let m = date_month(s);
    let d = date_day(s);
    let h = time_hour(s);
    let mi = time_minute(s);
    let sec = time_second(s);
    let ms = if s.len() == 24 {
        digits_val(s.subrange(20, 23))
    } else {
        0
    };
    if civil_fields_ok(y, m, d, h, mi, sec) {
        let t = calendar_millis(y, m, d, h, mi, sec, ms);
        Resolution::Exact { from: t, to: t }
    } else {
        Resolution::Invalid
    }
}

/// A date-and-time literal without a zone designator; it denotes local
/// civil time.
pub open spec fn abs_naive_shape(s: Seq<char>) -> bool {
    s.len() == 19 && layout_date(s, 0) && (s[10] == 'T' || s[10] == ' ') && layout_time(s, 11)
}

pub open spec fn abs_naive_ok(s: Seq<char>) -> bool {
    civil_fields_ok(date_year(s), date_month(s), date_day(s), time_hour(s), time_minute(s),
        time_second(s))
}

/// A bare date literal; it denotes a whole local day.
pub open spec fn abs_date_shape(s: Seq<char>) -> bool {
    s.len() == 10 && layout_date(s, 0)
}

pub open spec fn abs_date_ok(s: Seq<char>) -> bool {
    let y = date_year(s);
    let m = date_month(s);
    let d = date_day(s);
    1970 <= y && 1 <= m <= 12 && 1 <= d <= month_length(y, m)
}

/// What the expression denotes against `refm` milliseconds since the
/// epoch: the single meaning the grammar gives it.
pub open spec fn resolution(s: Seq<char>, refm: int) -> Resolution {
    if expr_is_now(s) {
        Resolution::Exact { from: refm, to: refm }
    } else if ago_parts(s, " seconds ago"@) {
        ago_resolution(refm, ago_count(s, " seconds ago"@), 1000)
    } else if ago_parts(s, " second ago"@) {
        ago_resolution(refm, ago_count(s, " second ago"@), 1000)
    } else if ago_parts(s, " minutes ago"@) {
        ago_resolution(refm, ago_count(s, " minutes ago"@), 60000)
    } else if ago_parts(s, " minute ago"@) {
        ago_resolution(refm, ago_count(s, " minute ago"@), 60000)
    } else if ago_parts(s, " hours ago"@) {
        ago_resolution(refm, ago_count(s, " hours ago"@), 3600000)
    } else if ago_parts(s, " hour ago"@) {
        ago_resolution(refm, ago_count(s, " hour ago"@), 3600000)
    } else if abs_utc_shape(s) {
        abs_utc_resolution(s)
    } else if abs_naive_shape(s) {
        if abs_naive_ok(s) {
            Resolution::Local
        } else {
            Resolution::Invalid
        }
    } else if abs_date_shape(s) {
        if abs_date_ok(s) {
            Resolution::Local
        } else {
            Resolution::Invalid
        }
    } else {
        Resolution::Invalid
    }
}

/// The expression could not be read; carries the rejected text.
#[derive(Debug, Clone)]
pub struct DateParseError {
    pub timestamp: String,
    pub message: String,
}

/// The local civil time could not be mapped to a single UTC instant.
#[derive(Debug, Clone)]
pub struct LocalTimeZoneError;

/// Why a time expression did not resolve.
#[derive(Debug, Clone)]
pub enum ResolveError {
    Parse(DateParseError),
    LocalTime(LocalTimeZoneError),
}

/// What `resolve` promises about its result: the window is exactly what
/// `resolution` gives whenever the grammar pins one down and it fits in
/// `u64` milliseconds, and every rejection names the offending input.
pub open spec fn resolve_post(s: Seq<char>, refm: int, r: Result<crate::TimeWindow, ResolveError>) -> bool {
    match resolution(s, refm) {
        Resolution::Exact { from, to } => {
            &&& (0 <= from && to <= u64::MAX) ==> (r matches Ok(w) && w.from_ms == from
                && w.to_ms == to)
            &&& !(0 <= from && to <= u64::MAX) ==> (r matches Err(ResolveError::Parse(p))
                && p.timestamp@ == s)
        },
        Resolution::Local => {
            ||| (r matches Ok(w) && w.wf() && (abs_naive_shape(s) ==> w.from_ms == w.to_ms))
            ||| (r matches Err(ResolveError::LocalTime(_)))
        },
        Resolution::Invalid => r matches Err(ResolveError::Parse(p)) && p.timestamp@ == s,
    }
}

fn parse_error(expr: &str, msg: &str) -> (r: ResolveError)
    ensures
        r matches ResolveError::Parse(p) && p.timestamp@ == expr@,
{
    ResolveError::Parse(
        DateParseError { timestamp: String::from_str(expr), message: String::from_str(msg) },
    )
}

fn try_ago(s: &str, suffix: &str, unit: u64, reference_ms: u64) -> (r: Option<
    Result<crate::TimeWindow, ()>,
>)
    requires
        1 <= unit <= 3600000,
    ensures
        r is None <==> !ago_parts(s@, suffix@),
        (ago_parts(s@, suffix@) ==> {
            let from = reference_ms - ago_count(s@, suffix@) * unit;
            let to = from + unit;
            if 0 <= from && to <= u64::MAX {
                r == Some(
                    Result::<crate::TimeWindow, ()>::Ok(
                        crate::TimeWindow { from_ms: from as u64, to_ms: to as u64 },
                    ),
                )
            } else {
                r == Some(Result::<crate::TimeWindow, ()>::Err(()))
            }
        }),
{
    if !crate::text::ends_with(s, suffix) {
        return None;
    }
    let n_s = s.unicode_len();
    let n_suf = suffix.unicode_len();
    if n_s <= n_suf {
        return None;
    }
    if n_s - n_suf > 19 {
        return None;
    }
    match crate::text::parse_digits(s, 0, n_s - n_suf) {
        None => None,
        Some(n) => {
            proof {
                assert((n as int) * (unit as int) <= 66438645800238499765752545280000000)
                    by (nonlinear_arith)
                    requires
                        0 <= n <= 18446744073709551615int,
                        0 <= unit <= 3600000,
                ;
            }
            let prod: u128 = (n as u128) * (unit as u128);
            if prod > reference_ms as u128 {
                Some(Err(()))
            } else {
                let from: u64 = reference_ms - (prod as u64);
                if from > u64::MAX - unit {
                    Some(Err(()))
                } else {
                    Some(Ok(crate::TimeWindow { from_ms: from, to_ms: from + unit }))
                }
            }
        },
    }
}

fn str_is_now(s: &str) -> (r: bool)
    ensures
        r == expr_is_now(s@),
{
    proof {
        reveal_strlit("now");
    }
    let n = s.unicode_len();
    if n != 3 {
        return false;
    }
    let r = s.get_char(0) == 'n' && s.get_char(1) == 'o' && s.get_char(2) == 'w';
    proof {
        if r {
            assert(s@ =~= "now"@);
        }
    }
    r
}

fn check_layout_date(s: &str, off: usize) -> (r: bool)
    requires
        off + 10 <= s@.len(),
        s@.len() <= usize::MAX,
    ensures
        r == layout_date(s@, off as int),
{
    let d1 = matches!(crate::text::parse_digits(s, off, off + 4), Some(_));
    let d2 = matches!(crate::text::parse_digits(s, off + 5, off + 7), Some(_));
    let d3 = matches!(crate::text::parse_digits(s, off + 8, off + 10), Some(_));
    d1 && s.get_char(off + 4) == '-' && d2 && s.get_char(off + 7) == '-' && d3
}

fn check_layout_time(s: &str, off: usize) -> (r: bool)
    requires
        off + 8 <= s@.len(),
        s@.len() <= usize::MAX,
    ensures
        r == layout_time(s@, off as int),
{
    let d1 = matches!(crate::text::parse_digits(s, off, off + 2), Some(_));
    let d2 = matches!(crate::text::parse_digits(s, off + 3, off + 5), Some(_));
    let d3 = matches!(crate::text::parse_digits(s, off + 6, off + 8), Some(_));
    d1 && s.get_char(off + 2) == ':' && d2 && s.get_char(off + 5) == ':' && d3
}

/// Relies on chrono's `Local` time zone: maps a naive local civil time to
/// the UTC instant it denotes, in milliseconds since the epoch. `None`
/// when the fields are out of range for chrono, the civil time does not
/// exist in the local zone or is ambiguous there (a DST fold), or the
/// instant lies before the epoch.
#[verifier::external_body]
fn local_civil_to_utc_millis(
    year: u64,
    month: u64,
    day: u64,
    hour: u64,
    minute: u64,
    second: u64,
) -> (r: Option<u64>) {
    let date = chrono::NaiveDate::from_ymd_opt(year as i32, month as u32, day as u32)?;
    let naive = date.and_hms_opt(hour as u32, minute as u32, second as u32)?;
    let resolved = chrono::TimeZone::from_local_datetime(&chrono::Local, &naive).single()?;
    let millis = chrono::DateTime::<chrono::Utc>::from(resolved).timestamp_millis();
    u64::try_from(millis).ok()
}

struct DateFields {
    year: u64,
    month: u64,
    day: u64,
}

fn read_date_fields(s: &str) -> (r: DateFields)
    requires
        10 <= s@.len(),
        layout_date(s@, 0),
    ensures
        r.year == date_year(s@),
        r.month == date_month(s@),
        r.day == date_day(s@),
        r.year <= 9999,
        r.month <= 99,
        r.day <= 99,
{
    proof {
        crate::text::lemma_digits_val_bound(s@.subrange(0, 4));
        crate::text::lemma_digits_val_bound(s@.subrange(5, 7));
        crate::text::lemma_digits_val_bound(s@.subrange(8, 10));
        crate::text::lemma_pow10_small();
    }
    let year = crate::text::parse_digits(s, 0, 4).unwrap();
    let month = crate::text::parse_digits(s, 5, 7).unwrap();
    let day = crate::text::parse_digits(s, 8, 10).unwrap();
    DateFields { year, month, day }
}

struct TimeFields {
    hour: u64,
    minute: u64,
    second: u64,
}

fn read_time_fields(s: &str) -> (r: TimeFields)
    requires
        19 <= s@.len(),
        layout_time(s@, 11),
    ensures
        r.hour == time_hour(s@),
        r.minute == time_minute(s@),
        r.second == time_second(s@),
        r.hour <= 99,
        r.minute <= 99,
        r.second <= 99,
{
    proof {
        crate::text::lemma_digits_val_bound(s@.subrange(11, 13));
        crate::text::lemma_digits_val_bound(s@.subrange(14, 16));
        crate::text::lemma_digits_val_bound(s@.subrange(17, 19));
        crate::text::lemma_pow10_small();
    }
    let hour = crate::text::parse_digits(s, 11, 13).unwrap();
    let minute = crate::text::parse_digits(s, 14, 16).unwrap();
    let second = crate::text::parse_digits(s, 17, 19).unwrap();
    TimeFields { hour, minute, second }
}

/// The civil day after a valid date.
pub open spec fn spec_next_day(y: int, m: int, d: int) -> (int, int, int) {
    if d < month_length(y, m) {
        (y, m, d + 1)
    } else if m < 12 {
        (y, m + 1, 1)
    } else {
        (y + 1, 1, 1)
    }
}

/// The day after a valid civil date, still a valid civil date.
fn next_civil_day(y: u64, m: u64, d: u64) -> (r: (u64, u64, u64))
    requires
        1970 <= y <= 9999,
        1 <= m <= 12,
        1 <= d <= month_length(y as int, m as int),
    ensures
        (r.0 as int, r.1 as int, r.2 as int) == spec_next_day(y as int, m as int, d as int),
        1970 <= r.0 <= 10000,
        1 <= r.1 <= 12,
        1 <= r.2 <= month_length(r.0 as int, r.1 as int),
{
    if d < month_length_of(y, m) {
        (y, m, d + 1)
    } else if m < 12 {
        (y, m + 1, 1)
    } else {
        (y + 1, 1, 1)
    }
}

/// Resolves a time expression against a reference instant into a concrete
/// half-open UTC window. Relative expressions (`now`, `N seconds ago`,
/// minutes, hours) and UTC literals resolve purely; a zoneless literal
/// goes through the machine's local zone and is rejected when that
/// conversion is not single-valued.
pub fn resolve(expression: &str, reference_ms: u64) -> (r: Result<crate::TimeWindow, ResolveError>)
    ensures
        resolve_post(expression@, reference_ms as int, r),
        r matches Ok(w) ==> w.wf(),
{
    if str_is_now(expression) {
        return Ok(crate::TimeWindow { from_ms: reference_ms, to_ms: reference_ms });
    }
    let suffixes: [(&str, u64); 6] = [
        (" seconds ago", MS_PER_SECOND),
        (" second ago", MS_PER_SECOND),
        (" minutes ago", MS_PER_MINUTE),
        (" minute ago", MS_PER_MINUTE),
        (" hours ago", MS_PER_HOUR),
        (" hour ago", MS_PER_HOUR),
    ];
    match try_ago(expression, suffixes[0].0, suffixes[0].1, reference_ms) {
        Some(Ok(w)) => {
            return Ok(w);
        },
        Some(Err(())) => {
            return Err(parse_error(expression, "relative window lies outside the supported range"));
        },
        None => {},
    }
    match try_ago(expression, suffixes[1].0, suffixes[1].1, reference_ms) {
        Some(Ok(w)) => {
            return Ok(w);
        },
        Some(Err(())) => {
            return Err(parse_error(expression, "relative window lies outside the supported range"));
        },
        None => {},
    }
    match try_ago(expression, suffixes[2].0, suffixes[2].1, reference_ms) {
        Some(Ok(w)) => {
            return Ok(w);
        },
        Some(Err(())) => {
            return Err(parse_error(expression, "relative window lies outside the supported range"));
        },
        None => {},
    }
    match try_ago(expression, suffixes[3].0, suffixes[3].1, reference_ms) {
        Some(Ok(w)) => {
            return Ok(w);
        },
        Some(Err(())) => {
            return Err(parse_error(expression, "relative window lies outside the supported range"));
        },
        None => {},
    }
    match try_ago(expression, suffixes[4].0, suffixes[4].1, reference_ms) {
        Some(Ok(w)) => {
            return Ok(w);
        },
        Some(Err(())) => {
            return Err(parse_error(expression, "relative window lies outside the supported range"));
        },
        None => {},
    }
    match try_ago(expression, suffixes[5].0, suffixes[5].1, reference_ms) {
        Some(Ok(w)) => {
            return Ok(w);
        },
        Some(Err(())) => {
            return Err(parse_error(expression, "relative window lies outside the supported range"));
        },
        None => {},
    }
    let n = expression.unicode_len();
    if (n == 24 || n == 20) && check_layout_date(expression, 0) && expression.get_char(10) == 'T'
        && check_layout_time(expression, 11) {
        let tail_ok = if n == 24 {
            expression.get_char(19) == '.' && matches!(
                crate::text::parse_digits(expression, 20, 23),
                Some(_),
            ) && expression.get_char(23) == 'Z'
        } else {
            expression.get_char(19) == 'Z'
        };
        if tail_ok {
            let date = read_date_fields(expression);
            let time = read_time_fields(expression);
            let milli: u64 = if n == 24 {
                proof {
                    crate::text::lemma_digits_val_bound(expression@.subrange(20, 23));
                    crate::text::lemma_pow10_small();
                }
                crate::text::parse_digits(expression, 20, 23).unwrap()
            } else {
                0
            };
            if date.year >= 1970 && date.month >= 1 && date.month <= 12 && date.day >= 1
                && date.day <= month_length_of(date.year, date.month) && time.hour < 24
                && time.minute < 60 && time.second < 60 {
                let civil = Civil {
                    year: date.year,
                    month: date.month,
                    day: date.day,
                    hour: time.hour,
                    minute: time.minute,
                    second: time.second,
                    milli,
                };
                let t = civil_to_millis(&civil);
                return Ok(crate::TimeWindow { from_ms: t, to_ms: t });
            } else {
                return Err(parse_error(expression, "calendar field out of range"));
            }
        }
    }
    if n == 19 && check_layout_date(expression, 0) && (expression.get_char(10) == 'T'
        || expression.get_char(10) == ' ') && check_layout_time(expression, 11) {
        let date = read_date_fields(expression);
        let time = read_time_fields(expression);
        if date.year >= 1970 && date.month >= 1 && date.month <= 12 && date.day >= 1
            && date.day <= month_length_of(date.year, date.month) && time.hour < 24 && time.minute
            < 60 && time.second < 60 {
            return match local_civil_to_utc_millis(
                date.year,
                date.month,
                date.day,
                time.hour,
                time.minute,
                time.second,
            ) {
                Some(t) => Ok(crate::TimeWindow { from_ms: t, to_ms: t }),
                None => Err(ResolveError::LocalTime(LocalTimeZoneError)),
            };
        } else {
            return Err(parse_error(expression, "calendar field out of range"));
        }
    }
    if n == 10 && check_layout_date(expression, 0) {
        let date = read_date_fields(expression);
        if date.year >= 1970 && date.month >= 1 && date.month <= 12 && date.day >= 1 && date.day
            <= month_length_of(date.year, date.month) {
            let (y2, m2, d2) = next_civil_day(date.year, date.month, date.day);
            let start = local_civil_to_utc_millis(date.year, date.month, date.day, 0, 0, 0);
            let end = local_civil_to_utc_millis(y2, m2, d2, 0, 0, 0);
            return match (start, end) {
                (Some(a), Some(b)) => {
                    if a <= b {
                        Ok(crate::TimeWindow { from_ms: a, to_ms: b })
                    } else {
                        Err(ResolveError::LocalTime(LocalTimeZoneError))
                    }
                },
                _ => Err(ResolveError::LocalTime(LocalTimeZoneError)),
            };
        } else {
            return Err(parse_error(expression, "calendar field out of range"));
        }
    }
    Err(parse_error(expression, "unrecognized time expression"))
}

/// Law: resolving is deterministic wherever the grammar pins an exact
/// window down — for `now`, the relative `ago` forms and UTC literals,
/// any two results admitted by `resolve` for the same expression and
/// reference instant carry the same window.
pub proof fn lemma_resolve_deterministic(
    s: Seq<char>,
    refm: int,
    r1: Result<crate::TimeWindow, ResolveError>,
    r2: Result<crate::TimeWindow, ResolveError>,
)
    requires
        resolution(s, refm) matches Resolution::Exact { .. },
        resolve_post(s, refm, r1),
        resolve_post(s, refm, r2),
    ensures
        r1 matches Ok(w1) ==> (r2 matches Ok(w2) && w1 == w2),
{
}


} // verus!
