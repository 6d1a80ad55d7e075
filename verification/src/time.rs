//! Calendar timestamps with a fixed UTC offset.
//!
//! The feed reports a post's publish time as a string in one fixed format,
//! e.g. `Tue Jan 02 15:04:05 +0800 2024`. This module holds the parsed form
//! as plain calendar fields, assigns each well-formed timestamp an instant
//! (seconds since the epoch, offset applied), parses the fixed source
//! format, and renders the fixed display format used for logging.

use vstd::prelude::*;

use crate::error::{CrawlError, ErrorKind};
use crate::text::{dc, digit_str, dv, is_digit};

verus! {

/// A publish timestamp: calendar fields plus a fixed UTC offset in minutes.
#[derive(Clone, Copy, PartialEq, Eq, Structural, Debug)]
pub struct Timestamp {
    pub year: u32,
    pub month: u32,
    pub day: u32,
    pub hour: u32,
    pub minute: u32,
    pub second: u32,
    /// Signed offset from UTC, in minutes; `+0800` is 480.
    pub offset_minutes: i32,
}

pub open spec fn is_leap_year(y: int) -> bool {
    (y % 4 == 0 && y % 100 != 0) || y % 400 == 0
}

pub open spec fn days_in_month(y: int, m: int) -> int {
    if m == 2 {
        if is_leap_year(y) {
            29
        } else {
            28
        }
    } else if m == 4 || m == 6 || m == 9 || m == 11 {
        30
    } else {
        31
    }
}

/// Days in the months of year `y` that lie strictly before month `m`.
pub open spec fn days_before_month(y: int, m: int) -> int {
    let l: int = if is_leap_year(y) {
        1
    } else {
        0
    };
    if m <= 1 {
        0
    } else if m == 2 {
        31
    } else if m == 3 {
        59 + l
    } else if m == 4 {
        90 + l
    } else if m == 5 {
        120 + l
    } else if m == 6 {
        151 + l
    } else if m == 7 {
        181 + l
    } else if m == 8 {
        212 + l
    } else if m == 9 {
        243 + l
    } else if m == 10 {
        273 + l
    } else if m == 11 {
        304 + l
    } else {
        334 + l
    }
}

/// How many leap years lie in `[1, y - 1]` of the proleptic Gregorian calendar.
pub open spec fn leap_years_before(y: int) -> int {
    (y - 1) / 4 - (y - 1) / 100 + (y - 1) / 400
}

/// Days from 1970-01-01 to the civil date `y-m-d`, that date counting as day 0.
pub open spec fn days_from_epoch(y: int, m: int, d: int) -> int {
    365 * (y - 1970) + leap_years_before(y) - leap_years_before(1970) + days_before_month(y, m) + (
    d - 1)
}

/// The instant a timestamp denotes: seconds since 1970-01-01 00:00:00 UTC.
pub open spec fn spec_instant(t: Timestamp) -> int {
    days_from_epoch(t.year as int, t.month as int, t.day as int) * 86400 + t.hour * 3600
        + t.minute * 60 + t.second - t.offset_minutes * 60
}

impl Timestamp {
    /// Valid calendar fields in the supported range.
    pub open spec fn wf(self) -> bool {
        &&& 1970 <= self.year <= 9999
        &&& 1 <= self.month <= 12
        &&& 1 <= self.day <= days_in_month(self.year as int, self.month as int)
        &&& self.hour <= 23
        &&& self.minute <= 59
        &&& self.second <= 59
        &&& -1439 <= self.offset_minutes <= 1439
    }

    /// Seconds since the epoch, with the UTC offset applied.
    pub fn instant(&self) -> (r: i64)
        requires
            self.wf(),
        ensures
            r == spec_instant(*self),
    {
        let y = self.year as i64;
        let leaps: i64 = (y - 1) / 4 - (y - 1) / 100 + (y - 1) / 400 - 477;
        let before: i64 = days_before_month_exec(self.year, self.month) as i64;
        let days: i64 = 365 * (y - 1970) + leaps + before + (self.day as i64 - 1);
        assert(leaps == leap_years_before(self.year as int) - leap_years_before(1970));
        days * 86400 + (self.hour as i64) * 3600 + (self.minute as i64) * 60 + (
        self.second as i64) - (self.offset_minutes as i64) * 60
    }
}

/// Month number of a three-letter month name, `1..=12`; 0 when the three
/// characters are no month name.
pub open spec fn month_number(a: char, b: char, c: char) -> int {
    if a == 'J' && b == 'a' && c == 'n' {
        1
    } else if a == 'F' && b == 'e' && c == 'b' {
        2
    } else if a == 'M' && b == 'a' && c == 'r' {
        3
    } else if a == 'A' && b == 'p' && c == 'r' {
        4
    } else if a == 'M' && b == 'a' && c == 'y' {
        5
    } else if a == 'J' && b == 'u' && c == 'n' {
        6
    } else if a == 'J' && b == 'u' && c == 'l' {
        7
    } else if a == 'A' && b == 'u' && c == 'g' {
        8
    } else if a == 'S' && b == 'e' && c == 'p' {
        9
    } else if a == 'O' && b == 'c' && c == 't' {
        10
    } else if a == 'N' && b == 'o' && c == 'v' {
        11
    } else if a == 'D' && b == 'e' && c == 'c' {
        12
    } else {
        0
    }
}

/// Weekday number of a three-letter weekday name, 0 = `Sun` .. 6 = `Sat`;
/// 7 when the three characters are no weekday name.
pub open spec fn weekday_number(a: char, b: char, c: char) -> int {
    if a == 'S' && b == 'u' && c == 'n' {
        0
    } else if a == 'M' && b == 'o' && c == 'n' {
        1
    } else if a == 'T' && b == 'u' && c == 'e' {
        2
    } else if a == 'W' && b == 'e' && c == 'd' {
        3
    } else if a == 'T' && b == 'h' && c == 'u' {
        4
    } else if a == 'F' && b == 'r' && c == 'i' {
        5
    } else if a == 'S' && b == 'a' && c == 't' {
        6
    } else {
        7
    }
}

/// The source format, positionally: `Tue Jan 02 15:04:05 +0800 2024`.
/// Separators sit at fixed indices, names and digits between them.
pub open spec fn created_at_shape_ok(s: Seq<char>) -> bool {
    &&& s.len() == 30
    &&& weekday_number(s[0], s[1], s[2]) != 7
    &&& s[3] == ' '
    &&& month_number(s[4], s[5], s[6]) != 0
    &&& s[7] == ' '
    &&& is_digit(s[8]) && is_digit(s[9])
    &&& s[10] == ' '
    &&& is_digit(s[11]) && is_digit(s[12])
    &&& s[13] == ':'
    &&& is_digit(s[14]) && is_digit(s[15])
    &&& s[16] == ':'
    &&& is_digit(s[17]) && is_digit(s[18])
    &&& s[19] == ' '
    &&& (s[20] == '+' || s[20] == '-')
    &&& is_digit(s[21]) && is_digit(s[22]) && is_digit(s[23]) && is_digit(s[24])
    &&& s[25] == ' '
    &&& is_digit(s[26]) && is_digit(s[27]) && is_digit(s[28]) && is_digit(s[29])
}

/// The timestamp spelled by a string of valid shape.
pub open spec fn created_at_fields(s: Seq<char>) -> Timestamp {
    let mag = (dv(s[21]) * 10 + dv(s[22])) * 60 + dv(s[23]) * 10 + dv(s[24]);
    Timestamp {
        year: (dv(s[26]) * 1000 + dv(s[27]) * 100 + dv(s[28]) * 10 + dv(s[29])) as u32,
        month: month_number(s[4], s[5], s[6]) as u32,
        day: (dv(s[8]) * 10 + dv(s[9])) as u32,
        hour: (dv(s[11]) * 10 + dv(s[12])) as u32,
        minute: (dv(s[14]) * 10 + dv(s[15])) as u32,
        second: (dv(s[17]) * 10 + dv(s[18])) as u32,
        offset_minutes: (if s[20] == '+' {
            mag
        } else {
            -mag
        }) as i32,
    }
}

/// A string parses iff it has the fixed shape, spells well-formed calendar
/// fields, an offset of at most 23 hours 59 minutes, and a weekday name
/// consistent with the date.
pub open spec fn created_at_valid(s: Seq<char>) -> bool {
    &&& created_at_shape_ok(s)
    &&& created_at_fields(s).wf()
    &&& dv(s[21]) * 10 + dv(s[22]) <= 23
    &&& dv(s[23]) * 10 + dv(s[24]) <= 59
    &&& weekday_number(s[0], s[1], s[2]) == (days_from_epoch(
        created_at_fields(s).year as int,
        created_at_fields(s).month as int,
        created_at_fields(s).day as int,
    ) + 4) % 7
}

/// What parsing the source format returns.
pub open spec fn spec_parse_created_at(s: Seq<char>) -> Option<Timestamp> {
    if created_at_valid(s) {
        Some(created_at_fields(s))
    } else {
        None
    }
}

/// The display rendering of a timestamp, used for the log:
/// `2024-01-02 15:04:05 +08:00`.
pub open spec fn spec_format_timestamp(t: Timestamp) -> Seq<char> {
    let y = t.year as int;
    let mo = t.month as int;
    let d = t.day as int;
    let h = t.hour as int;
    let mi = t.minute as int;
    let sec = t.second as int;
    let mag = if t.offset_minutes >= 0 {
        t.offset_minutes as int
    } else {
        -(t.offset_minutes as int)
    };
    seq![
        dc(y / 1000),
        dc((y / 100) % 10),
        dc((y / 10) % 10),
        dc(y % 10),
        '-',
        dc(mo / 10),
        dc(mo % 10),
        '-',
        dc(d / 10),
        dc(d % 10),
        ' ',
        dc(h / 10),
        dc(h % 10),
        ':',
        dc(mi / 10),
        dc(mi % 10),
        ':',
        dc(sec / 10),
        dc(sec % 10),
        ' ',
        if t.offset_minutes >= 0 {
            '+'
        } else {
            '-'
        },
        dc((mag / 60) / 10),
        dc((mag / 60) % 10),
        ':',
        dc((mag % 60) / 10),
        dc((mag % 60) % 10),
    ]
}

/// The timestamp spelled by a 26-character display rendering, read back
/// from its fixed positions.
pub open spec fn display_fields(s: Seq<char>) -> Timestamp {
    let mag = (dv(s[21]) * 10 + dv(s[22])) * 60 + dv(s[24]) * 10 + dv(s[25]);
    Timestamp {
        year: (dv(s[0]) * 1000 + dv(s[1]) * 100 + dv(s[2]) * 10 + dv(s[3])) as u32,
        month: (dv(s[5]) * 10 + dv(s[6])) as u32,
        day: (dv(s[8]) * 10 + dv(s[9])) as u32,
        hour: (dv(s[11]) * 10 + dv(s[12])) as u32,
        minute: (dv(s[14]) * 10 + dv(s[15])) as u32,
        second: (dv(s[17]) * 10 + dv(s[18])) as u32,
        offset_minutes: (if s[20] == '-' {
            -mag
        } else {
            mag
        }) as i32,
    }
}

/// Reading a digit character back gives the digit.
proof fn lemma_dv_dc(d: int)
    requires
        0 <= d <= 9,
    ensures
        dv(dc(d)) == d,
{
}

/// Splitting a number below 10000 into its four decimal digits loses nothing.
proof fn lemma_four_digits(y: int)
    requires
        0 <= y <= 9999,
    ensures
        (y / 1000) * 1000 + ((y / 100) % 10) * 100 + ((y / 10) % 10) * 10 + y % 10 == y,
{
    assert((y / 1000) * 1000 + ((y / 100) % 10) * 100 + ((y / 10) % 10) * 10 + y % 10 == y)
        by (nonlinear_arith)
        requires
            0 <= y <= 9999,
    ;
}

/// The display rendering of a well-formed timestamp reads back to the very
/// same fields, so the logged string represents the same instant as the
/// timestamp it was made from.
pub proof fn lemma_format_round_trip(t: Timestamp)
    requires
        t.wf(),
    ensures
        display_fields(spec_format_timestamp(t)) == t,
        spec_instant(display_fields(spec_format_timestamp(t))) == spec_instant(t),
{
    let s = spec_format_timestamp(t);
    let y = t.year as int;
    lemma_four_digits(y);
    lemma_dv_dc(y / 1000);
    lemma_dv_dc((y / 100) % 10);
    lemma_dv_dc((y / 10) % 10);
    lemma_dv_dc(y % 10);
    let mag = if t.offset_minutes >= 0 {
        t.offset_minutes as int
    } else {
        -(t.offset_minutes as int)
    };
    lemma_dv_dc((mag / 60) / 10);
    lemma_dv_dc((mag / 60) % 10);
    lemma_dv_dc((mag % 60) / 10);
    lemma_dv_dc((mag % 60) % 10);
    lemma_dv_dc(t.month as int / 10);
    lemma_dv_dc(t.month as int % 10);
    lemma_dv_dc(t.day as int / 10);
    lemma_dv_dc(t.day as int % 10);
    lemma_dv_dc(t.hour as int / 10);
    lemma_dv_dc(t.hour as int % 10);
    lemma_dv_dc(t.minute as int / 10);
    lemma_dv_dc(t.minute as int % 10);
    lemma_dv_dc(t.second as int / 10);
    lemma_dv_dc(t.second as int % 10);
    assert(display_fields(s).offset_minutes == t.offset_minutes);
    assert(display_fields(s) == t);
}

/// A timestamp parsed from the fixed source format renders, for logging,
/// to a string that represents the same instant.
pub proof fn lemma_parse_format_same_instant(s: Seq<char>, t: Timestamp)
    requires
        spec_parse_created_at(s) == Some(t),
    ensures
        display_fields(spec_format_timestamp(t)) == t,
        spec_instant(display_fields(spec_format_timestamp(t))) == spec_instant(t),
{
    assert(t == created_at_fields(s));
    assert(t.wf());
    lemma_format_round_trip(t);
}

/// Appends the two-digit zero-padded rendering of `n`.
fn push_two_digits(out: &mut String, n: u32)
    requires
        n <= 99,
    ensures
        final(out)@ == old(out)@ + seq![dc(n as int / 10), dc(n as int % 10)],
{
    out.append(digit_str(n / 10));
    out.append(digit_str(n % 10));
}

/// Renders a timestamp for the log, as `2024-01-02 15:04:05 +08:00`.
#[verifier::rlimit(60)]
pub fn format_timestamp(t: &Timestamp) -> (r: String)
    requires
        t.wf(),
    ensures
        r@ == spec_format_timestamp(*t),
{
    proof {
        reveal_strlit("-");
        reveal_strlit(" ");
        reveal_strlit(":");
        reveal_strlit("+");
    }
    let mut out = String::new();
    push_two_digits(&mut out, t.year / 100);
    push_two_digits(&mut out, t.year % 100);
    out.append("-");
    push_two_digits(&mut out, t.month);
    out.append("-");
    push_two_digits(&mut out, t.day);
    out.append(" ");
    push_two_digits(&mut out, t.hour);
    out.append(":");
    push_two_digits(&mut out, t.minute);
    out.append(":");
    push_two_digits(&mut out, t.second);
    out.append(" ");
    let mag: u32 = if t.offset_minutes >= 0 {
        out.append("+");
        t.offset_minutes as u32
    } else {
        out.append("-");
        (-t.offset_minutes) as u32
    };
    push_two_digits(&mut out, mag / 60);
    out.append(":");
    push_two_digits(&mut out, mag % 60);
    proof {
        assert((t.year as int) / 100 / 10 == (t.year as int) / 1000);
        assert((t.year as int) / 100 % 10 == (t.year as int) / 100 % 10);
        assert((t.year as int) % 100 / 10 == (t.year as int) / 10 % 10);
        assert((t.year as int) % 100 % 10 == (t.year as int) % 10);
        assert(out@ =~= spec_format_timestamp(*t));
    }
    out
}

pub fn is_leap_year_exec(y: u32) -> (r: bool)
    ensures
        r == is_leap_year(y as int),
{
    (y % 4 == 0 && y % 100 != 0) || y % 400 == 0
}

pub fn days_in_month_exec(y: u32, m: u32) -> (r: u32)
    ensures
        r == days_in_month(y as int, m as int),
{
    if m == 2 {
        if is_leap_year_exec(y) {
            29
        } else {
            28
        }
    } else if m == 4 || m == 6 || m == 9 || m == 11 {
        30
    } else {
        31
    }
}

pub fn days_before_month_exec(y: u32, m: u32) -> (r: u32)
    ensures
        r == days_before_month(y as int, m as int),
{
    let l: u32 = if is_leap_year_exec(y) {
        1
    } else {
        0
    };
    if m <= 1 {
        0
    } else if m == 2 {
        31
    } else if m == 3 {
        59 + l
    } else if m == 4 {
        90 + l
    } else if m == 5 {
        120 + l
    } else if m == 6 {
        151 + l
    } else if m == 7 {
        181 + l
    } else if m == 8 {
        212 + l
    } else if m == 9 {
        243 + l
    } else if m == 10 {
        273 + l
    } else if m == 11 {
        304 + l
    } else {
        334 + l
    }
}

/// Days from the epoch to `y-m-d`, as [`days_from_epoch`].
pub fn days_from_epoch_exec(y: u32, m: u32, d: u32) -> (r: i64)
    requires
        1970 <= y <= 9999,
        1 <= m <= 12,
        1 <= d <= 31,
    ensures
        r == days_from_epoch(y as int, m as int, d as int),
        0 <= r < 3000000,
{
    let yy = y as i64;
    let leaps: i64 = (yy - 1) / 4 - (yy - 1) / 100 + (yy - 1) / 400 - 477;
    assert(leaps == leap_years_before(y as int) - leap_years_before(1970));
    365 * (yy - 1970) + leaps + days_before_month_exec(y, m) as i64 + (d as i64 - 1)
}

fn month_number_exec(a: char, b: char, c: char) -> (r: u32)
    ensures
        r == month_number(a, b, c),
{
    if a == 'J' && b == 'a' && c == 'n' {
        1
    } else if a == 'F' && b == 'e' && c == 'b' {
        2
    } else if a == 'M' && b == 'a' && c == 'r' {
        3
    } else if a == 'A' && b == 'p' && c == 'r' {
        4
    } else if a == 'M' && b == 'a' && c == 'y' {
        5
    } else if a == 'J' && b == 'u' && c == 'n' {
        6
    } else if a == 'J' && b == 'u' && c == 'l' {
        7
    } else if a == 'A' && b == 'u' && c == 'g' {
        8
    } else if a == 'S' && b == 'e' && c == 'p' {
        9
    } else if a == 'O' && b == 'c' && c == 't' {
        10
    } else if a == 'N' && b == 'o' && c == 'v' {
        11
    } else if a == 'D' && b == 'e' && c == 'c' {
        12
    } else {
        0
    }
}

fn weekday_number_exec(a: char, b: char, c: char) -> (r: u32)
    ensures
        r == weekday_number(a, b, c),
{
    if a == 'S' && b == 'u' && c == 'n' {
        0
    } else if a == 'M' && b == 'o' && c == 'n' {
        1
    } else if a == 'T' && b == 'u' && c == 'e' {
        2
    } else if a == 'W' && b == 'e' && c == 'd' {
        3
    } else if a == 'T' && b == 'h' && c == 'u' {
        4
    } else if a == 'F' && b == 'r' && c == 'i' {
        5
    } else if a == 'S' && b == 'a' && c == 't' {
        6
    } else {
        7
    }
}

/// The numeric value of a digit character, `None` on any other character.
fn digit_val(c: char) -> (r: Option<u32>)
    ensures
        match r {
            Some(d) => is_digit(c) && d == dv(c) && d <= 9,
            None => !is_digit(c),
        },
{
    let u = c as u32;
    if 48 <= u && u <= 57 {
        Some(u - 48)
    } else {
        None
    }
}

/// Reads a two-digit field at positions `i`, `i + 1`.
fn two_digits(s: &str, i: usize) -> (r: Option<u32>)
    requires
        i + 1 < s@.len(),
        s@.len() <= usize::MAX,
    ensures
        match r {
            Some(d) => is_digit(s@[i as int]) && is_digit(s@[i + 1]) && d == dv(s@[i as int]) * 10
                + dv(s@[i + 1]) && d <= 99,
            None => !(is_digit(s@[i as int]) && is_digit(s@[i + 1])),
        },
{
    let hi = digit_val(s.get_char(i));
    let lo = digit_val(s.get_char(i + 1));
    match (hi, lo) {
        (Some(h), Some(l)) => Some(h * 10 + l),
        _ => None,
    }
}

/// Parses a publish timestamp in the fixed source format, e.g.
/// `Tue Jan 02 15:04:05 +0800 2024`: three-letter weekday, three-letter
/// month, two-digit day, `HH:MM:SS`, signed four-digit UTC offset,
/// four-digit year. The string must spell a real calendar date in years
/// 1970 to 9999 whose weekday matches the named one.
pub fn parse_weibo_created_at(created_at: &str) -> (r: Result<Timestamp, CrawlError>)
    ensures
        match r {
            Ok(t) => spec_parse_created_at(created_at@) == Some(t) && t.wf(),
            Err(e) => {
                &&& spec_parse_created_at(created_at@) is None
                &&& e.kind == ErrorKind::Parse
                &&& e.cause@ == "invalid created_at"@
            },
        },
{
    let ghost s = created_at@;
    if created_at.unicode_len() != 30 {
        return Err(CrawlError::parse("invalid created_at"));
    }
    let wd = weekday_number_exec(
        created_at.get_char(0),
        created_at.get_char(1),
        created_at.get_char(2),
    );
    let mo = month_number_exec(
        created_at.get_char(4),
        created_at.get_char(5),
        created_at.get_char(6),
    );
    let seps_ok = created_at.get_char(3) == ' ' && created_at.get_char(7) == ' '
        && created_at.get_char(10) == ' ' && created_at.get_char(13) == ':'
        && created_at.get_char(16) == ':' && created_at.get_char(19) == ' '
        && created_at.get_char(25) == ' ';
    let sign = created_at.get_char(20);
    if wd == 7 || mo == 0 || !seps_ok || !(sign == '+' || sign == '-') {
        return Err(CrawlError::parse("invalid created_at"));
    }
    let day = two_digits(created_at, 8);
    let hour = two_digits(created_at, 11);
    let minute = two_digits(created_at, 14);
    let second = two_digits(created_at, 17);
    let off_h = two_digits(created_at, 21);
    let off_m = two_digits(created_at, 23);
    let y_hi = two_digits(created_at, 26);
    let y_lo = two_digits(created_at, 28);
    match (day, hour, minute, second, off_h, off_m, y_hi, y_lo) {
        (
            Some(day),
            Some(hour),
            Some(minute),
            Some(second),
            Some(off_h),
            Some(off_m),
            Some(y_hi),
            Some(y_lo),
        ) => {
            let year = y_hi * 100 + y_lo;
            let mag: i32 = (off_h * 60 + off_m) as i32;
            let t = Timestamp {
                year,
                month: mo,
                day,
                hour,
                minute,
                second,
                offset_minutes: if sign == '+' {
                    mag
                } else {
                    -mag
                },
            };
            assert(t == created_at_fields(s));
            if !(1970 <= year && year <= 9999) || day < 1 || day > days_in_month_exec(year, mo)
                || hour > 23 || minute > 59 || second > 59 || off_h > 23 || off_m > 59 {
                return Err(CrawlError::parse("invalid created_at"));
            }
            let days = days_from_epoch_exec(year, mo, day);
            if wd as i64 != (days + 4) % 7 {
                return Err(CrawlError::parse("invalid created_at"));
            }
            Ok(t)
        },
        _ => Err(CrawlError::parse("invalid created_at")),
    }
}

} // verus!
