//! Moments of UTC and their texts.
use vstd::prelude::*;
use vstd::string::*;

verus! {

/// The first and the last second that have a date in the calendar, counted from
/// the start of 1970.
pub const CALENDAR_FIRST: i64 = -8_334_601_228_800;

pub const CALENDAR_LAST: i64 = 8_210_266_876_799;

/// The first second of the year 0 and the last of the year 9999.
pub const FOUR_DIGITS_FIRST: i64 = -62_167_219_200;

pub const FOUR_DIGITS_LAST: i64 = 253_402_300_799;

/// A moment: seconds since the start of 1970, and nanoseconds.
#[derive(Debug, Clone, Copy)]
pub struct Moment {
    pub secs: i64,
    pub nanos: u32,
}

impl Moment {
    /// Whether the calendar has a date for the moment `days` days later.
    pub open spec fn dated(self, days: int) -> bool {
        &&& CALENDAR_FIRST <= self.secs + days * 86_400 <= CALENDAR_LAST
        &&& self.nanos < 1_000_000_000
    }
}

/// The moment that `chrono::DateTime::parse_from_rfc3339` finds in a text, as
/// seconds and nanoseconds; nothing where it rejects the text.
pub uninterp spec fn rfc3339_moment(s: Seq<char>) -> Option<(i64, u32)>;

/// Whether `s` is a date and time as RFC 3339 writes it.
pub open spec fn is_rfc3339(s: Seq<char>) -> bool {
    rfc3339_moment(s) is Some
}

/// The text that `chrono::DateTime::<Utc>::to_rfc3339` gives for a moment.
pub uninterp spec fn rfc3339_of(secs: i64, nanos: u32) -> Seq<char>;

/// The characters of such a text.
pub open spec fn is_stamp_char(c: char) -> bool {
    '0' <= c <= '9' || c == '-' || c == '+' || c == ':' || c == '.' || c == 'T'
}

/// The view of a moment, where there is one.
pub open spec fn moment_pair(m: Option<Moment>) -> Option<(i64, u32)> {
    match m {
        Some(m) => Some((m.secs, m.nanos)),
        None => None,
    }
}

/// `chrono::DateTime::parse_from_rfc3339`: the moment, named by `rfc3339_moment`.
#[verifier::external_body]
pub(crate) fn parse_rfc3339(s: &str) -> (r: Option<Moment>)
    ensures
        moment_pair(r) == rfc3339_moment(s@),
{
    match chrono::DateTime::parse_from_rfc3339(s) {
        Ok(d) => Some(Moment { secs: d.timestamp(), nanos: d.timestamp_subsec_nanos() }),
        Err(_) => None,
    }
}

/// Whether a text is a date and time as RFC 3339 writes it.
pub fn parses_rfc3339(s: &str) -> (r: bool)
    ensures
        r == is_rfc3339(s@),
{
    parse_rfc3339(s).is_some()
}

/// `chrono::DateTime::<Utc>::to_rfc3339` of a moment in the calendar. The text
/// holds digits and the signs of a date only, and is one that
/// `parse_from_rfc3339` accepts where the year has four digits.
#[verifier::external_body]
pub(crate) fn rfc3339_text(secs: i64, nanos: u32) -> (r: String)
    requires
        CALENDAR_FIRST <= secs <= CALENDAR_LAST,
        nanos < 1_000_000_000,
    ensures
        r@ == rfc3339_of(secs, nanos),
        r@.len() > 0,
        forall|i: int| 0 <= i < r@.len() ==> is_stamp_char(#[trigger] r@[i]),
        FOUR_DIGITS_FIRST <= secs <= FOUR_DIGITS_LAST ==> is_rfc3339(r@),
{
    chrono::DateTime::from_timestamp(secs, nanos).expect("a moment in the calendar").to_rfc3339()
}

/// The text of the moment `days` days after `now`.
pub open spec fn stamp(now: Moment, days: int) -> Seq<char> {
    rfc3339_of((now.secs + days * 86_400) as i64, now.nanos)
}

/// The text of the moment `days` days after `now`.
pub fn stamp_after(now: &Moment, days: i64) -> (r: String)
    requires
        0 <= days <= 36_500,
        now.dated(0),
        now.dated(days as int),
    ensures
        r@ == stamp(*now, days as int),
        r@.len() > 0,
        forall|i: int| 0 <= i < r@.len() ==> is_stamp_char(#[trigger] r@[i]),
        FOUR_DIGITS_FIRST <= now.secs + days * 86_400 <= FOUR_DIGITS_LAST ==> is_rfc3339(r@),
{
    rfc3339_text(now.secs + days * 86_400, now.nanos)
}

// ── Dates without a zone, and the texts of moments ──────────────────────────

/// Whether seconds and nanoseconds are those of a moment in the calendar; only in
/// the last second of a minute may the nanoseconds run on into a leap second.
pub open spec fn in_calendar(secs: i64, nanos: u32) -> bool {
    &&& CALENDAR_FIRST <= secs <= CALENDAR_LAST
    &&& nanos < 1_000_000_000 || (nanos < 2_000_000_000 && secs as int % 60 == 59)
}

/// The moment that `chrono::NaiveDateTime::parse_from_str` finds in a text of the
/// given format, taken as UTC, or the text of its error.
pub uninterp spec fn naive_moment(s: Seq<char>, format: Seq<char>) -> Result<
    (i64, u32),
    Seq<char>,
>;

/// The view of a moment, or of the text of an error.
pub open spec fn moment_result(r: Result<Moment, String>) -> Result<(i64, u32), Seq<char>> {
    match r {
        Ok(m) => Ok((m.secs, m.nanos)),
        Err(e) => Err(e@),
    }
}

/// `chrono::NaiveDateTime::parse_from_str`: the moment, named by `naive_moment`,
/// which is one of the calendar.
#[verifier::external_body]
pub(crate) fn parse_naive(s: &str, format: &str) -> (r: Result<Moment, String>)
    ensures
        moment_result(r) == naive_moment(s@, format@),
        r matches Ok(m) ==> in_calendar(m.secs, m.nanos),
{
    match chrono::NaiveDateTime::parse_from_str(s, format) {
        Ok(d) => {
            let u = d.and_utc();
            Ok(Moment { secs: u.timestamp(), nanos: u.timestamp_subsec_nanos() })
        },
        Err(e) => Err(e.to_string()),
    }
}

/// The text that `chrono::DateTime::<Utc>::format` gives for a moment.
pub uninterp spec fn utc_text(secs: i64, nanos: u32, format: Seq<char>) -> Seq<char>;

/// The formats in which moments are shown.
pub open spec fn is_shown_format(f: Seq<char>) -> bool {
    ||| f == "%H:%M"@
    ||| f == "%d.%m. %H:%M"@
    ||| f == "%d.%m.%Y %H:%M"@
    ||| f == "%-I:%M %p"@
    ||| f == "%b %-d, %-I:%M %p"@
    ||| f == "%b %-d, %Y %-I:%M %p"@
    ||| f == "%Y-%m-%d %H:%M:%S"@
    ||| f == "%Y-%m-%dT%H:%M:%SZ"@
}

/// `chrono::DateTime::<Utc>::format`: the text of a moment, named by `utc_text`.
/// The formats are valid ones, on which it does not fail.
#[verifier::external_body]
pub(crate) fn format_utc(m: &Moment, format: &str) -> (r: String)
    requires
        in_calendar(m.secs, m.nanos),
        is_shown_format(format@),
    ensures
        r@ == utc_text(m.secs, m.nanos, format@),
{
    let d = chrono::DateTime::from_timestamp(m.secs, m.nanos).expect("a moment in the calendar");
    d.format(format).to_string()
}

/// The year that `chrono::Datelike::year` gives for a moment of UTC.
pub uninterp spec fn utc_year(secs: i64) -> i32;

/// `chrono::Datelike::year`: the year of a moment, named by `utc_year`.
#[verifier::external_body]
pub(crate) fn year_of(secs: i64) -> (r: i32)
    requires
        CALENDAR_FIRST <= secs <= CALENDAR_LAST,
    ensures
        r == utc_year(secs),
{
    let d = chrono::DateTime::from_timestamp(secs, 0).expect("a moment in the calendar");
    chrono::Datelike::year(&d)
}

/// Whether `chrono_tz` knows a time zone of the given name.
pub uninterp spec fn is_zone(zone: Seq<char>) -> bool;

/// `<chrono_tz::Tz as FromStr>::from_str`: whether there is a zone of the name.
#[verifier::external_body]
pub(crate) fn zone_is_known(zone: &str) -> (r: bool)
    ensures
        r == is_zone(zone@),
{
    zone.parse::<chrono_tz::Tz>().is_ok()
}

/// The text of a moment in a time zone, as `chrono::DateTime::with_timezone` and
/// `format` with `%Y-%m-%d %H:%M:%S %Z` give it.
pub uninterp spec fn zone_text(secs: i64, nanos: u32, zone: Seq<char>) -> Seq<char>;

/// `chrono::DateTime::with_timezone`: the text of a moment in a time zone that
/// `chrono_tz` knows, named by `zone_text`.
#[verifier::external_body]
pub(crate) fn format_in_zone(m: &Moment, zone: &str) -> (r: String)
    requires
        in_calendar(m.secs, m.nanos),
        is_zone(zone@),
    ensures
        r@ == zone_text(m.secs, m.nanos, zone@),
{
    let d = chrono::DateTime::from_timestamp(m.secs, m.nanos).expect("a moment in the calendar");
    let tz = zone.parse::<chrono_tz::Tz>().expect("a known time zone");
    d.with_timezone(&tz).format("%Y-%m-%d %H:%M:%S %Z").to_string()
}

/// The day of UTC that a second falls on, counted from the start of 1970.
pub open spec fn day_of(secs: i64) -> int {
    secs as int / 86_400
}

/// The day of UTC that a second falls on.
pub fn day_number(secs: i64) -> (r: i64)
    ensures
        r == day_of(secs),
{
    if secs >= 0 {
        secs / 86_400
    } else {
        let q: i64 = (secs + 1) / 86_400;
        proof {
            lemma_negative_day(secs as int);
        }
        q - 1
    }
}

proof fn lemma_negative_day(s: int)
    requires
        s < 0,
    ensures
        s / 86_400 == -((-(s + 1)) / 86_400) - 1,
{
    let q = (-(s + 1)) / 86_400;
    let r = (-(s + 1)) % 86_400;
    assert(-(s + 1) == 86_400 * q + r);
    assert(s == 86_400 * (-q - 1) + (86_399 - r));
    assert(s / 86_400 == -q - 1) by (nonlinear_arith)
        requires
            s == 86_400 * (-q - 1) + (86_399 - r),
            0 <= r < 86_400,
    ;
}

// ── Laws ─────────────────────────────────────────────────────────────────────

/// A day of UTC has its seconds: those from its start up to the start of the next one.
pub proof fn law_day_holds_its_seconds(secs: i64, r: i64)
    requires
        call_ensures(day_number, (secs,), r),
    ensures
        r * 86_400 <= secs < (r + 1) * 86_400,
{
}

/// Two moments fall on the same day exactly where the seconds that have passed since its start are
/// those by which they differ.
pub proof fn law_same_day(a: i64, b: i64, day_a: i64, day_b: i64)
    requires
        call_ensures(day_number, (a,), day_a),
        call_ensures(day_number, (b,), day_b),
    ensures
        day_a == day_b <==> a as int % 86_400 - b as int % 86_400 == a - b,
        b == a + 86_400 ==> day_b == day_a + 1,
{
}

/// The text of a later moment is the one of the moment that many days of 86400 seconds later.
pub proof fn law_stamp_is_that_of_the_later_moment(now: Moment, days: i64, r: String)
    requires
        call_ensures(stamp_after, (&now, days), r),
    ensures
        r@ == rfc3339_of((now.secs + days * 86_400) as i64, now.nanos),
{
}

/// A text is taken for a moment exactly where it is read as one.
pub proof fn law_moment_is_what_is_read(s: &str, r: bool)
    requires
        call_ensures(parses_rfc3339, (s,), r),
    ensures
        r <==> rfc3339_moment(s@) is Some,
{
}

} // verus!
