use vstd::prelude::*;
use vstd::string::StringExecFns;

use crate::task::Task;
use crate::text::{decimal, digit, digit_char, push_char, push_decimal};

verus! {

/// A calendar day in the local time zone.
///
/// `day_number` counts days from 1970-01-01; `month` runs 1..=12 and
/// `weekday` 1..=7 (Monday first).
pub struct LocalDate {
    pub day_number: i64,
    pub year: i32,
    pub month: u8,
    pub day: u8,
    pub weekday: u8,
}

/// The words of a locale that relative date labels use.
pub struct DateNames {
    pub today: String,
    pub tomorrow: String,
    /// Full month names, January first.
    pub months: Vec<String>,
    /// Full weekday names, Monday first.
    pub weekdays: Vec<String>,
}

/// Whether `y` is a leap year of the Gregorian calendar.
pub open spec fn is_leap(y: int) -> bool {
    (y % 4 == 0 && y % 100 != 0) || y % 400 == 0
}

/// The number of days of month `m` of year `y`.
pub open spec fn days_in_month(y: int, m: int) -> int {
    if m == 2 {
        if is_leap(y) {
            29
        } else {
            28
        }
    } else if m == 4 || m == 6 || m == 9 || m == 11 {
        30
    } else {
        31
    }
}

/// The number of the day `y`-`m`-`d` of the Gregorian calendar, counted
/// from 1970-01-01 (day 0).
pub open spec fn days_from_civil(y: int, m: int, d: int) -> int {
    let yy = if m <= 2 {
        y - 1
    } else {
        y
    };
    let era = yy / 400;
    let yoe = yy - era * 400;
    let mp = if m > 2 {
        m - 3
    } else {
        m + 9
    };
    let doy = (153 * mp + 2) / 5 + d - 1;
    let doe = yoe * 365 + yoe / 4 - yoe / 100 + doy;
    era * 146097 + doe - 719468
}

/// The weekday (1 is Monday, 7 is Sunday) of the day numbered `n`; day 0 was a Thursday.
pub open spec fn weekday_of(n: int) -> int {
    (n + 3) % 7 + 1
}

/// Whether `y`-`m`-`d` is a day of the calendar in the years 1 to 9999.
pub open spec fn valid_ymd(y: int, m: int, d: int) -> bool {
    &&& 1 <= y <= 9999
    &&& 1 <= m <= 12
    &&& 1 <= d <= days_in_month(y, m)
}

impl LocalDate {
    /// The fields describe one calendar day: `day_number` and `weekday` are
    /// those of `year`-`month`-`day`.
    pub open spec fn wf(&self) -> bool {
        &&& valid_ymd(self.year as int, self.month as int, self.day as int)
        &&& self.day_number == days_from_civil(self.year as int, self.month as int, self.day as int)
        &&& self.weekday == weekday_of(self.day_number as int)
    }

    /// The day `year`-`month`-`day`; `None` where that is no day of the
    /// calendar in the years 1 to 9999.
    pub fn from_ymd(year: i32, month: u8, day: u8) -> (r: Option<LocalDate>)
        ensures
            r is Some <==> valid_ymd(year as int, month as int, day as int),
            r is Some ==> r->0.wf() && r->0.year == year && r->0.month == month && r->0.day == day,
    {
        if year < 1 || year > 9999 || month < 1 || month > 12 || day < 1 {
            return None;
        }
        let y = year as i64;
        let m = month as i64;
        let leap = (y % 4 == 0 && y % 100 != 0) || y % 400 == 0;
        let len: i64 = if m == 2 {
            if leap {
                29
            } else {
                28
            }
        } else if m == 4 || m == 6 || m == 9 || m == 11 {
            30
        } else {
            31
        };
        if day as i64 > len {
            return None;
        }
        let yy = if m <= 2 {
            y - 1
        } else {
            y
        };
        let era = yy / 400;
        let yoe = yy - era * 400;
        let mp = if m > 2 {
            m - 3
        } else {
            m + 9
        };
        let doy = (153 * mp + 2) / 5 + day as i64 - 1;
        let doe = yoe * 365 + yoe / 4 - yoe / 100 + doy;
        let n = era * 146097 + doe - 719468;
        let shifted = n + 3 + 721000;
        assert(shifted % 7 == (n + 3) % 7) by (nonlinear_arith)
            requires
                shifted == n + 3 + 7 * 103000,
        ;
        let w = shifted % 7 + 1;
        Some(LocalDate { day_number: n, year, month, day, weekday: w as u8 })
    }
}

impl DateNames {
    pub open spec fn wf(&self) -> bool {
        self.months@.len() == 12 && self.weekdays@.len() == 7
    }
}

/// The day of the month in two places, a figure space (U+2007) before a
/// single digit, as GLib's `%e` conversion writes it.
pub open spec fn padded_day(d: nat) -> Seq<char> {
    if d < 10 {
        seq!['\u{2007}', digit(d as int)]
    } else {
        seq![digit((d / 10) as int), digit((d % 10) as int)]
    }
}

/// `s` without its space characters.
pub open spec fn without_spaces(s: Seq<char>) -> Seq<char> {
    s.filter(|c: char| c != ' ')
}

/// "Month Day, " for `date`, spaces kept.
pub open spec fn month_day(date: LocalDate, names: DateNames) -> Seq<char> {
    names.months@[date.month - 1]@ + seq![' '] + padded_day(date.day as nat) + seq![',', ' ']
}

/// The label of `date` seen from the day `today`.
pub open spec fn date_label(date: LocalDate, today: LocalDate, names: DateNames) -> Seq<char> {
    let diff = date.day_number - today.day_number;
    if diff == 0 {
        names.today@
    } else if diff == 1 {
        names.tomorrow@
    } else if date.year == today.year {
        without_spaces(month_day(date, names) + names.weekdays@[date.weekday - 1]@)
    } else {
        month_day(date, names) + decimal(date.year as nat)
    }
}

/// A date of the current year other than today and tomorrow is labelled
/// without any space character.
pub proof fn lemma_same_year_label_has_no_spaces(date: LocalDate, today: LocalDate, names: DateNames)
    requires
        date.wf(),
        names.wf(),
        date.day_number - today.day_number != 0,
        date.day_number - today.day_number != 1,
        date.year == today.year,
    ensures
        !date_label(date, today, names).contains(' '),
{
    let s = month_day(date, names) + names.weekdays@[date.weekday - 1]@;
    broadcast use vstd::seq_lib::group_filter_ensures;

    assert(forall|i: int| 0 <= i < without_spaces(s).len() ==> without_spaces(s)[i] != ' ');
}

/// Relies on `str::replace`: every occurrence of the pattern is replaced, so
/// with the pattern " " and the empty replacement every space is removed and
/// the other characters keep their order.
#[verifier::external_body]
fn remove_spaces(s: &str) -> (r: String)
    ensures
        r@ == without_spaces(s@),
{
    s.replace(" ", "")
}

fn push_month_day(s: &mut String, date: &LocalDate, names: &DateNames)
    requires
        date.wf(),
        names.wf(),
    ensures
        final(s)@ == old(s)@ + month_day(*date, *names),
{
    s.append(names.months[(date.month - 1) as usize].as_str());
    push_char(s, ' ');
    let d = date.day as u32;
    if d < 10 {
        push_char(s, '\u{2007}');
        push_char(s, digit_char(d));
    } else {
        push_char(s, digit_char(d / 10));
        push_char(s, digit_char(d % 10));
    }
    push_char(s, ',');
    push_char(s, ' ');
    assert(final(s)@ =~= old(s)@ + month_day(*date, *names));
}

impl DateNames {
    /// The names of a locale: its words for today and tomorrow, its month
    /// names (January first) and its weekday names (Monday first).
    pub fn new(today: String, tomorrow: String, months: Vec<String>, weekdays: Vec<String>) -> (r: DateNames)
        ensures
            r.today@ == today@,
            r.tomorrow@ == tomorrow@,
            r.months@ == months@,
            r.weekdays@ == weekdays@,
    {
        DateNames { today, tomorrow, months, weekdays }
    }
}

impl Task {
    /// The timestamp of the task's date; `None` where the date is unset (0).
    pub fn date_datetime(&self) -> (r: Option<i64>)
        ensures
            r == (if self.date == 0 { None } else { Some(self.date) }),
    {
        if self.date == 0 {
            None
        } else {
            Some(self.date)
        }
    }

    /// A label for `date` relative to the day `today`: the locale's word for
    /// today or tomorrow; else "Month Day, Weekday" with every space removed
    /// where the year is that of `today`; else "Month Day, Year".
    pub fn date_display(date: &LocalDate, today: &LocalDate, names: &DateNames) -> (r: String)
        requires
            date.wf(),
            today.wf(),
            names.wf(),
        ensures
            r@ == date_label(*date, *today, *names),
    {
        if date.day_number == today.day_number {
            return names.today.clone();
        }
        if today.day_number < i64::MAX && date.day_number == today.day_number + 1 {
            return names.tomorrow.clone();
        }
        let mut s = String::new();
        push_month_day(&mut s, date, names);
        if date.year == today.year {
            s.append(names.weekdays[(date.weekday - 1) as usize].as_str());
            remove_spaces(s.as_str())
        } else {
            push_decimal(&mut s, date.year as u64);
            s
        }
    }
}

} // verus!
