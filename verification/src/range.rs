//! The date-range resolver: an inclusive [start, end] timestamp window from
//! a year and a quarter selector, via a fixed quarter-boundary table.
//! Quarter boundaries never land in February, so leap years need no special
//! handling here.

use vstd::prelude::*;

use crate::error::{Error, ErrorV};
use crate::formats::Quarter;
use crate::timestamp::{days_in_month, ts_le, Timestamp};

verus! {

/// The month a quarter starts in; its start day is always the 1st.
pub open spec fn quarter_start_month(q: Quarter) -> int {
    match q {
        Quarter::Q1 => 1,
        Quarter::Q2 => 4,
        Quarter::Q3 => 7,
        Quarter::Q4 => 10,
        Quarter::ALL => 1,
    }
}

/// The month a quarter ends in.
pub open spec fn quarter_end_month(q: Quarter) -> int {
    match q {
        Quarter::Q1 => 3,
        Quarter::Q2 => 6,
        Quarter::Q3 => 9,
        Quarter::Q4 => 12,
        Quarter::ALL => 12,
    }
}

/// The day a quarter ends on: the last day of its end month.
pub open spec fn quarter_end_day(q: Quarter) -> int {
    match q {
        Quarter::Q1 => 31,
        Quarter::Q2 => 30,
        Quarter::Q3 => 30,
        Quarter::Q4 => 31,
        Quarter::ALL => 31,
    }
}

/// The window's first instant: midnight opening the quarter's first day.
pub open spec fn window_start(year: int, q: Quarter) -> Timestamp {
    Timestamp {
        year: year as u32,
        month: quarter_start_month(q) as u32,
        day: 1,
        hour: 0,
        minute: 0,
        second: 0,
    }
}

/// The window's last instant: the last second of the quarter's last day.
pub open spec fn window_end(year: int, q: Quarter) -> Timestamp {
    Timestamp {
        year: year as u32,
        month: quarter_end_month(q) as u32,
        day: quarter_end_day(q) as u32,
        hour: 23,
        minute: 59,
        second: 59,
    }
}

/// What resolving a date range yields: the quarter's inclusive window for a
/// representable year, and a configuration error for any other year.
pub open spec fn date_range_spec(year: int, q: Quarter) -> Result<(Timestamp, Timestamp), ErrorV> {
    if 0 <= year <= 9999 {
        Ok((window_start(year, q), window_end(year, q)))
    } else {
        Err(ErrorV::InvalidDateRange)
    }
}

/// Resolve the inclusive [start, end] window of a quarter of a given year.
/// Both ends are real calendar timestamps and the start does not follow the
/// end; a year the four-digit date format cannot carry is rejected.
pub fn date_range_for_year(year: i32, quarter: Quarter) -> (r: Result<(Timestamp, Timestamp), Error>)
    ensures
        match r {
            Ok(p) => {
                &&& date_range_spec(year as int, quarter) == Ok::<_, ErrorV>(p)
                &&& p.0.wf()
                &&& p.1.wf()
                &&& ts_le(p.0, p.1)
            },
            Err(e) => date_range_spec(year as int, quarter) == Err::<(Timestamp, Timestamp), _>(e@),
        },
{
    if year < 0 || year > 9999 {
        return Err(Error::InvalidDateRange);
    }
    let y = year as u32;
    let (start_month, end_month, end_day): (u32, u32, u32) = match quarter {
        Quarter::Q1 => (1, 3, 31),
        Quarter::Q2 => (4, 6, 30),
        Quarter::Q3 => (7, 9, 30),
        Quarter::Q4 => (10, 12, 31),
        Quarter::ALL => (1, 12, 31),
    };
    let start = Timestamp { year: y, month: start_month, day: 1, hour: 0, minute: 0, second: 0 };
    let end = Timestamp {
        year: y,
        month: end_month,
        day: end_day,
        hour: 23,
        minute: 59,
        second: 59,
    };
    assert(1 <= days_in_month(y as int, start_month as int));
    Ok((start, end))
}

/// Relies on chrono's `Utc::now` and `Datelike::year` for the current
/// calendar year in UTC.  Nothing is assumed of the value: the resolver
/// validates whatever year the clock reports.
#[verifier::external_body]
fn current_utc_year() -> i32 {
    chrono::Datelike::year(&chrono::Utc::now())
}

/// Resolve the date window from an optional explicit year — the current UTC
/// calendar year when none is given — and a quarter selector.
pub fn get_date_range(year: Option<i32>, quarter: Quarter) -> (r: Result<
    (Timestamp, Timestamp),
    Error,
>)
    ensures
        match year {
            Some(y) => match r {
                Ok(p) => {
                    &&& date_range_spec(y as int, quarter) == Ok::<_, ErrorV>(p)
                    &&& p.0.wf()
                    &&& p.1.wf()
                    &&& ts_le(p.0, p.1)
                },
                Err(e) => date_range_spec(y as int, quarter) == Err::<(Timestamp, Timestamp), _>(
                    e@,
                ),
            },
            None => (r matches Ok(p) ==> {
                &&& (exists|y: int|
                    #[trigger] date_range_spec(y, quarter) == Ok::<_, ErrorV>(p))
                &&& p.0.wf()
                &&& p.1.wf()
                &&& ts_le(p.0, p.1)
            }),
        },
{
    let y = match year {
        Some(y) => y,
        None => current_utc_year(),
    };
    let r = date_range_for_year(y, quarter);
    proof {
        if year is None && r is Ok {
            assert(date_range_spec(y as int, quarter) == Ok::<_, ErrorV>(r->Ok_0));
        }
    }
    r
}

/// The quarter-to-window mapping is exact: Q1 runs from January 1st,
/// midnight, through March 31st, 23:59:59; Q2 from April 1st through June
/// 30th; Q3 from July 1st through September 30th; Q4 from October 1st
/// through December 31st; and ALL spans the whole calendar year.
pub proof fn lemma_quarter_ranges(year: int)
    requires
        0 <= year <= 9999,
    ensures
        date_range_spec(year, Quarter::Q1) == Ok::<_, ErrorV>(
            (
                (Timestamp { year: year as u32, month: 1, day: 1, hour: 0, minute: 0, second: 0 }),
                (Timestamp {
                    year: year as u32,
                    month: 3,
                    day: 31,
                    hour: 23,
                    minute: 59,
                    second: 59,
                }),
            ),
        ),
        date_range_spec(year, Quarter::Q2) == Ok::<_, ErrorV>(
            (
                (Timestamp { year: year as u32, month: 4, day: 1, hour: 0, minute: 0, second: 0 }),
                (Timestamp {
                    year: year as u32,
                    month: 6,
                    day: 30,
                    hour: 23,
                    minute: 59,
                    second: 59,
                }),
            ),
        ),
        date_range_spec(year, Quarter::Q3) == Ok::<_, ErrorV>(
            (
                (Timestamp { year: year as u32, month: 7, day: 1, hour: 0, minute: 0, second: 0 }),
                (Timestamp {
                    year: year as u32,
                    month: 9,
                    day: 30,
                    hour: 23,
                    minute: 59,
                    second: 59,
                }),
            ),
        ),
        date_range_spec(year, Quarter::Q4) == Ok::<_, ErrorV>(
            (
                (Timestamp { year: year as u32, month: 10, day: 1, hour: 0, minute: 0, second: 0 }),
                (Timestamp {
                    year: year as u32,
                    month: 12,
                    day: 31,
                    hour: 23,
                    minute: 59,
                    second: 59,
                }),
            ),
        ),
        date_range_spec(year, Quarter::ALL) == Ok::<_, ErrorV>(
            (
                (Timestamp { year: year as u32, month: 1, day: 1, hour: 0, minute: 0, second: 0 }),
                (Timestamp {
                    year: year as u32,
                    month: 12,
                    day: 31,
                    hour: 23,
                    minute: 59,
                    second: 59,
                }),
            ),
        ),
{
}

} // verus!
