//! The wall clock and the local time zone, through `chrono`.
use chrono::TimeZone;
use vstd::prelude::*;

verus! {

/// The earliest second since the epoch that `chrono` can represent
/// (January 1 of year -262143, UTC).
pub const EARLIEST_SECS: i64 = -8334601228800i64;

/// The latest second since the epoch that `chrono` can represent
/// (December 31 of year 262142, 23:59:59 UTC).
pub const LATEST_SECS: i64 = 8210266876799i64;

/// The seconds from which every time zone (whose offset is less than a day)
/// sees a year between 1 and 9999, written with four digits.
pub const FOUR_DIGIT_YEAR_FROM: i64 = -62135510400i64;

/// The last second from which every time zone sees a year of at most 9999.
pub const FOUR_DIGIT_YEAR_UNTIL: i64 = 253402214399i64;

/// `c` is a decimal digit.
pub open spec fn is_digit(c: char) -> bool {
    '0' <= c && c <= '9'
}

/// `s` reads `YYYY-MM-DD HH:MM:SS`: four digits, a dash, two digits, a
/// dash, two digits, a space, then two digits three times, separated by
/// colons.
pub open spec fn is_datetime_text(s: Seq<char>) -> bool {
    &&& s.len() == 19
    &&& s[4] == '-'
    &&& s[7] == '-'
    &&& s[10] == ' '
    &&& s[13] == ':'
    &&& s[16] == ':'
    &&& forall|i: int|
        0 <= i < 19 && i != 4 && i != 7 && i != 10 && i != 13 && i != 16 ==> is_digit(
            #[trigger] s[i],
        )
}

/// `chrono::Local::now()`, read with `timestamp_millis`: the milliseconds
/// since the epoch at the moment of the call. Which moment that is depends
/// on the system clock and is not stated. `chrono` takes the time from
/// `SystemTime::now().duration_since(UNIX_EPOCH)` (it stops on a clock set
/// before the epoch) and makes a `DateTime` of those seconds within its
/// range, so the value is never negative and its seconds are at most
/// `LATEST_SECS`.
#[verifier::external_body]
pub(crate) fn now_millis() -> (ms: i64)
    ensures
        0 <= ms <= LATEST_SECS * 1000 + 999,
{
    chrono::Local::now().timestamp_millis()
}

/// The format in which the creation time of a chat or a message is written.
pub const CREATION_TIME_FORMAT: &'static str = "%Y-%m-%d %H:%M:%S";

/// The decimal digit of the last place of `d`.
pub open spec fn digit_char(d: int) -> char {
    ((d % 10) + 48) as char
}

/// The last two decimal places of `v`.
pub open spec fn two_digits(v: int) -> Seq<char> {
    seq![digit_char(v / 10), digit_char(v)]
}

/// The decimal digits of `n`, most significant first, without leading zeros.
pub open spec fn decimal(n: nat) -> Seq<char>
    decreases n,
{
    if n < 10 {
        seq![digit_char(n as int)]
    } else {
        decimal(n / 10).push(digit_char((n % 10) as int))
    }
}

/// `s` with zeros in front, up to four characters.
pub open spec fn pad_four(s: Seq<char>) -> Seq<char> {
    if s.len() >= 4 {
        s
    } else {
        Seq::new((4 - s.len()) as nat, |i: int| '0') + s
    }
}

/// A year as `%Y` writes it: four digits for the years 0 to 9999, otherwise
/// a sign and at least four digits.
pub open spec fn year_text(y: int) -> Seq<char> {
    if 0 <= y <= 9999 {
        pad_four(decimal(y as nat))
    } else if y < 0 {
        seq!['-'] + pad_four(decimal((-y) as nat))
    } else {
        seq!['+'] + pad_four(decimal(y as nat))
    }
}

/// The (year, month, day) of the proleptic Gregorian calendar that is
/// `days` days after January 1, 1970.
pub open spec fn civil_from_days(days: int) -> (int, int, int) {
    let z = days + 719468;
    let era = z / 146097;
    let doe = z - era * 146097;
    let yoe = (doe - doe / 1460 + doe / 36524 - doe / 146096) / 365;
    let doy = doe - (365 * yoe + yoe / 4 - yoe / 100);
    let mp = (5 * doy + 2) / 153;
    let d = doy - (153 * mp + 2) / 5 + 1;
    let m = if mp < 10 { mp + 3 } else { mp - 9 };
    let y = yoe + era * 400 + if m <= 2 { 1int } else { 0int };
    (y, m, d)
}

/// The text of `%Y-%m-%d %H:%M:%S` for the wall-clock time `local`, counted
/// in seconds from January 1, 1970, 00:00:00 on the same clock.
pub open spec fn datetime_text_of(local: int) -> Seq<char> {
    let (y, m, d) = civil_from_days(local / 86400);
    let s = local % 86400;
    year_text(y) + seq!['-'] + two_digits(m) + seq!['-'] + two_digits(d) + seq![' ']
        + two_digits(s / 3600) + seq![':'] + two_digits(s / 60 % 60) + seq![':'] + two_digits(
        s % 60,
    )
}

/// `t` is the second `secs` since the epoch written as `%Y-%m-%d %H:%M:%S`
/// on the wall clock of some time zone, whose offset from UTC is less than
/// a day.
pub open spec fn is_rendering_of(secs: int, t: Seq<char>) -> bool {
    exists|local: int| secs - 86400 < local < secs + 86400 && t == #[trigger] datetime_text_of(local)
}

/// `chrono::Local.timestamp_opt(secs, 0)`, and when it gives a single time,
/// that time written with `format` (`DateTime::format`, then `to_string`).
/// `chrono` gives a single time for every second in its range. The time
/// is the one of the machine's time zone, which `chrono` reads from the
/// system (and relies on being readable); which zone that is, is not
/// stated: the text is the second written on the clock of a zone whose
/// offset is less than a day. `format` is the library's format, for which
/// the formatting cannot fail; for a second whose year has four digits in
/// every time zone, the text reads `YYYY-MM-DD HH:MM:SS`.
#[verifier::external_body]
pub(crate) fn local_datetime_text(secs: i64, format: &str) -> (text: Option<String>)
    requires
        format@ == CREATION_TIME_FORMAT@,
    ensures
        EARLIEST_SECS <= secs <= LATEST_SECS ==> text is Some,
        text matches Some(t) ==> is_rendering_of(secs as int, t@),
        FOUR_DIGIT_YEAR_FROM <= secs <= FOUR_DIGIT_YEAR_UNTIL ==> (text matches Some(t)
            ==> is_datetime_text(t@)),
{
    match chrono::Local.timestamp_opt(secs, 0) {
        chrono::MappedLocalTime::Single(t) => Some(t.format(format).to_string()),
        chrono::MappedLocalTime::Ambiguous(..) => None,
        chrono::MappedLocalTime::None => None,
    }
}

/// The whole seconds since the epoch in `ms` milliseconds, rounded down.
pub fn seconds_of_millis(ms: i64) -> (secs: i64)
    ensures
        secs == ms / 1000,
{
    if ms >= 0 {
        ms / 1000
    } else {
        let back: i64 = -(ms + 1);
        let q: i64 = back / 1000;
        assert(-(q + 1) == ms / 1000) by (nonlinear_arith)
            requires
                back == -(ms + 1),
                q == back / 1000,
                ms < 0,
        ;
        -q - 1
    }
}

} // verus!
