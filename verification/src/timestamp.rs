//! Naive calendar timestamps: the fixed `YYYY-MM-DD HH:MM:SS` text format,
//! calendar validity (leap years included), and the chronological order.
//! Timestamps carry no time zone; parsing and writing round-trip exactly.

use vstd::prelude::*;

verus! {

/// A naive date and time of day.  Well-formed values (see [`Timestamp::wf`])
/// hold a real calendar date of years 0 through 9999 — the years the
/// four-digit text format can carry.
#[derive(Debug, Clone, Copy, PartialEq, Eq, Structural)]
pub struct Timestamp {
    pub year: u32,
    pub month: u32,
    pub day: u32,
    pub hour: u32,
    pub minute: u32,
    pub second: u32,
}

/// The Gregorian leap-year rule.
pub open spec fn is_leap(year: int) -> bool {
    year % 4 == 0 && (year % 100 != 0 || year % 400 == 0)
}

/// How many days the given month of the given year has.
pub open spec fn days_in_month(year: int, month: int) -> int {
    if month == 2 {
        if is_leap(year) {
            29
        } else {
            28
        }
    } else if month == 4 || month == 6 || month == 9 || month == 11 {
        30
    } else {
        31
    }
}

impl Timestamp {
    /// A real calendar date within the representable years, and a real
    /// time of day.
    pub open spec fn wf(self) -> bool {
        &&& self.year <= 9999
        &&& 1 <= self.month <= 12
        &&& 1 <= self.day <= days_in_month(self.year as int, self.month as int)
        &&& self.hour <= 23
        &&& self.minute <= 59
        &&& self.second <= 59
    }

    /// Whether this value is a real calendar date and time.
    pub fn valid(&self) -> (r: bool)
        ensures
            r == self.wf(),
    {
        self.year <= 9999 && 1 <= self.month && self.month <= 12 && 1 <= self.day
            && self.day <= days_in_month_exec(self.year, self.month) && self.hour <= 23
            && self.minute <= 59 && self.second <= 59
    }
}

/// How many days the given month has, executably.
pub fn days_in_month_exec(year: u32, month: u32) -> (r: u32)
    ensures
        r == days_in_month(year as int, month as int),
{
    if month == 2 {
        if year % 4 == 0 && (year % 100 != 0 || year % 400 == 0) {
            29
        } else {
            28
        }
    } else if month == 4 || month == 6 || month == 9 || month == 11 {
        30
    } else {
        31
    }
}

/// The chronological order on timestamps: lexicographic over the fields,
/// most significant first.
pub open spec fn ts_le(a: Timestamp, b: Timestamp) -> bool {
    if a.year != b.year {
        a.year < b.year
    } else if a.month != b.month {
        a.month < b.month
    } else if a.day != b.day {
        a.day < b.day
    } else if a.hour != b.hour {
        a.hour < b.hour
    } else if a.minute != b.minute {
        a.minute < b.minute
    } else {
        a.second <= b.second
    }
}

/// Compare two timestamps chronologically.
pub fn ts_le_exec(a: &Timestamp, b: &Timestamp) -> (r: bool)
    ensures
        r == ts_le(*a, *b),
{
    if a.year != b.year {
        a.year < b.year
    } else if a.month != b.month {
        a.month < b.month
    } else if a.day != b.day {
        a.day < b.day
    } else if a.hour != b.hour {
        a.hour < b.hour
    } else if a.minute != b.minute {
        a.minute < b.minute
    } else {
        a.second <= b.second
    }
}

/// Whether a character is a decimal digit.
pub open spec fn is_digit(c: char) -> bool {
    '0' <= c && c <= '9'
}

/// The value of a decimal digit character.
pub open spec fn dval(c: char) -> int {
    c as int - '0' as int
}

/// The decimal digit character for a value below ten.
pub open spec fn digit_char(v: int) -> char {
    if v == 0 {
        '0'
    } else if v == 1 {
        '1'
    } else if v == 2 {
        '2'
    } else if v == 3 {
        '3'
    } else if v == 4 {
        '4'
    } else if v == 5 {
        '5'
    } else if v == 6 {
        '6'
    } else if v == 7 {
        '7'
    } else if v == 8 {
        '8'
    } else {
        '9'
    }
}

/// Whether the text has the exact shape `YYYY-MM-DD HH:MM:SS`.
pub open spec fn ts_syntax(s: Seq<char>) -> bool {
    &&& s.len() == 19
    &&& is_digit(s[0]) && is_digit(s[1]) && is_digit(s[2]) && is_digit(s[3])
    &&& s[4] == '-'
    &&& is_digit(s[5]) && is_digit(s[6])
    &&& s[7] == '-'
    &&& is_digit(s[8]) && is_digit(s[9])
    &&& s[10] == ' '
    &&& is_digit(s[11]) && is_digit(s[12])
    &&& s[13] == ':'
    &&& is_digit(s[14]) && is_digit(s[15])
    &&& s[16] == ':'
    &&& is_digit(s[17]) && is_digit(s[18])
}

/// The timestamp a well-shaped text denotes, before calendar validation.
pub open spec fn ts_of(s: Seq<char>) -> Timestamp {
    Timestamp {
        year: (dval(s[0]) * 1000 + dval(s[1]) * 100 + dval(s[2]) * 10 + dval(s[3])) as u32,
        month: (dval(s[5]) * 10 + dval(s[6])) as u32,
        day: (dval(s[8]) * 10 + dval(s[9])) as u32,
        hour: (dval(s[11]) * 10 + dval(s[12])) as u32,
        minute: (dval(s[14]) * 10 + dval(s[15])) as u32,
        second: (dval(s[17]) * 10 + dval(s[18])) as u32,
    }
}

/// What parsing a timestamp yields: the denoted timestamp where the text has
/// the fixed shape and names a real calendar date and time; nothing else.
pub open spec fn ts_parse(s: Seq<char>) -> Option<Timestamp> {
    if ts_syntax(s) && ts_of(s).wf() {
        Some(ts_of(s))
    } else {
        None
    }
}

/// The fixed `YYYY-MM-DD HH:MM:SS` rendering of a timestamp.
pub open spec fn ts_fmt(t: Timestamp) -> Seq<char> {
    seq![
        digit_char(t.year as int / 1000),
        digit_char((t.year as int / 100) % 10),
        digit_char((t.year as int / 10) % 10),
        digit_char(t.year as int % 10),
        '-',
        digit_char(t.month as int / 10),
        digit_char(t.month as int % 10),
        '-',
        digit_char(t.day as int / 10),
        digit_char(t.day as int % 10),
        ' ',
        digit_char(t.hour as int / 10),
        digit_char(t.hour as int % 10),
        ':',
        digit_char(t.minute as int / 10),
        digit_char(t.minute as int % 10),
        ':',
        digit_char(t.second as int / 10),
        digit_char(t.second as int % 10),
    ]
}

/// Read one digit character.
fn digit_val(c: char) -> (r: Option<u32>)
    ensures
        match r {
            Some(v) => is_digit(c) && v == dval(c) && v <= 9,
            None => !is_digit(c),
        },
{
    if '0' <= c && c <= '9' {
        Some((c as u32) - ('0' as u32))
    } else {
        None
    }
}

/// Write one digit below ten.
fn digit_char_exec(v: u32) -> (r: char)
    requires
        v <= 9,
    ensures
        r == digit_char(v as int),
{
    match v {
        0 => '0',
        1 => '1',
        2 => '2',
        3 => '3',
        4 => '4',
        5 => '5',
        6 => '6',
        7 => '7',
        8 => '8',
        _ => '9',
    }
}

/// Parse `YYYY-MM-DD HH:MM:SS` text into a timestamp.  Exactly the texts of
/// that shape naming a real calendar date and time are accepted.
pub fn parse_timestamp(s: &Vec<char>) -> (r: Option<Timestamp>)
    ensures
        r == ts_parse(s@),
{
    if s.len() != 19 {
        return None;
    }
    if !(s[4] == '-' && s[7] == '-' && s[10] == ' ' && s[13] == ':' && s[16] == ':') {
        return None;
    }
    let d0 = match digit_val(s[0]) {
        Some(v) => v,
        None => { return None; },
    };
    let d1 = match digit_val(s[1]) {
        Some(v) => v,
        None => { return None; },
    };
    let d2 = match digit_val(s[2]) {
        Some(v) => v,
        None => { return None; },
    };
    let d3 = match digit_val(s[3]) {
        Some(v) => v,
        None => { return None; },
    };
    let mo1 = match digit_val(s[5]) {
        Some(v) => v,
        None => { return None; },
    };
    let mo2 = match digit_val(s[6]) {
        Some(v) => v,
        None => { return None; },
    };
    let da1 = match digit_val(s[8]) {
        Some(v) => v,
        None => { return None; },
    };
    let da2 = match digit_val(s[9]) {
        Some(v) => v,
        None => { return None; },
    };
    let h1 = match digit_val(s[11]) {
        Some(v) => v,
        None => { return None; },
    };
    let h2 = match digit_val(s[12]) {
        Some(v) => v,
        None => { return None; },
    };
    let mi1 = match digit_val(s[14]) {
        Some(v) => v,
        None => { return None; },
    };
    let mi2 = match digit_val(s[15]) {
        Some(v) => v,
        None => { return None; },
    };
    let s1 = match digit_val(s[17]) {
        Some(v) => v,
        None => { return None; },
    };
    let s2 = match digit_val(s[18]) {
        Some(v) => v,
        None => { return None; },
    };
    let t = Timestamp {
        year: d0 * 1000 + d1 * 100 + d2 * 10 + d3,
        month: mo1 * 10 + mo2,
        day: da1 * 10 + da2,
        hour: h1 * 10 + h2,
        minute: mi1 * 10 + mi2,
        second: s1 * 10 + s2,
    };
    if t.valid() {
        assert(t == ts_of(s@));
        Some(t)
    } else {
        None
    }
}

/// Render a timestamp as `YYYY-MM-DD HH:MM:SS` text.
pub fn format_timestamp(t: &Timestamp) -> (r: Vec<char>)
    requires
        t.wf(),
    ensures
        r@ == ts_fmt(*t),
{
    let mut r: Vec<char> = Vec::new();
    r.push(digit_char_exec(t.year / 1000));
    r.push(digit_char_exec((t.year / 100) % 10));
    r.push(digit_char_exec((t.year / 10) % 10));
    r.push(digit_char_exec(t.year % 10));
    r.push('-');
    r.push(digit_char_exec(t.month / 10));
    r.push(digit_char_exec(t.month % 10));
    r.push('-');
    r.push(digit_char_exec(t.day / 10));
    r.push(digit_char_exec(t.day % 10));
    r.push(' ');
    r.push(digit_char_exec(t.hour / 10));
    r.push(digit_char_exec(t.hour % 10));
    r.push(':');
    r.push(digit_char_exec(t.minute / 10));
    r.push(digit_char_exec(t.minute % 10));
    r.push(':');
    r.push(digit_char_exec(t.second / 10));
    r.push(digit_char_exec(t.second % 10));
    assert(r@ =~= ts_fmt(*t));
    r
}

/// Writing a digit yields a digit, and reading it back yields the value.
proof fn lemma_digit_char_val(v: int)
    requires
        0 <= v <= 9,
    ensures
        is_digit(digit_char(v)),
        dval(digit_char(v)) == v,
{
}

/// A two-digit rendering denotes its value again.
proof fn lemma_two_digits(v: int)
    requires
        0 <= v <= 99,
    ensures
        dval(digit_char(v / 10)) * 10 + dval(digit_char(v % 10)) == v,
{
    lemma_digit_char_val(v / 10);
    lemma_digit_char_val(v % 10);
}

/// Rendering a timestamp and parsing the text yields the identical
/// timestamp: the fixed format round-trips exactly, with no shift.
pub proof fn lemma_ts_round_trip(t: Timestamp)
    requires
        t.wf(),
    ensures
        ts_parse(ts_fmt(t)) == Some(t),
{
    let s = ts_fmt(t);
    let y = t.year as int;
    lemma_digit_char_val(y / 1000);
    lemma_digit_char_val((y / 100) % 10);
    lemma_digit_char_val((y / 10) % 10);
    lemma_digit_char_val(y % 10);
    assert(dval(s[0]) * 1000 + dval(s[1]) * 100 + dval(s[2]) * 10 + dval(s[3]) == y) by {
        assert((y / 1000) * 1000 + ((y / 100) % 10) * 100 + ((y / 10) % 10) * 10 + y % 10 == y)
            by (nonlinear_arith)
            requires
                0 <= y <= 9999,
        ;
    }
    lemma_two_digits(t.month as int);
    lemma_two_digits(t.day as int);
    lemma_two_digits(t.hour as int);
    lemma_two_digits(t.minute as int);
    lemma_two_digits(t.second as int);
    assert(ts_syntax(s));
    assert(ts_of(s) == t);
}

} // verus!
