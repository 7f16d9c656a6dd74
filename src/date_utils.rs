use vstd::prelude::*;

use crate::model::{day_in_range, MyDate, MyDateTime, MAX_DAY};
use crate::text::{count_char, decimal_text, lemma_no_occurrences, occurrences, push_decimal, same_text};
use chrono::{Datelike, Local, Months, NaiveDate, Timelike};

verus! {

/// Format of a date as the user types it and as it is shown: day-month-year.
pub const FORMAT_DATE: &'static str = "%d-%m-%Y";

/// Day number of the date that chrono reads from `text` in the `%d-%m-%Y`
/// format, or `None` where it reads none.
pub uninterp spec fn parsed_dmy(text: Seq<char>) -> Option<i32>;

/// Number of days in the proleptic Gregorian calendar before January 1 of
/// year `y`, counted from January 1 of year 1 (which is day 1).
pub open spec fn days_before_year(y: int) -> int {
    365 * (y - 1) + (y - 1) / 4 - (y - 1) / 100 + (y - 1) / 400
}

/// Year `y` holds the day with number `days`.
pub open spec fn year_holds(y: int, days: int) -> bool {
    days_before_year(y) < days <= days_before_year(y + 1)
}

/// Calendar year of the date with the given day number.
pub open spec fn year_of_day(days: int) -> int {
    choose|y: int| year_holds(y, days)
}

proof fn lemma_year_grows(y: int)
    ensures
        days_before_year(y) + 365 <= days_before_year(y + 1),
{
}

proof fn lemma_years_ordered(a: int, b: int)
    requires
        a < b,
    ensures
        days_before_year(a + 1) <= days_before_year(b),
    decreases b - a,
{
    if a + 1 < b {
        lemma_years_ordered(a, b - 1);
        lemma_year_grows(b - 1);
    }
}

/// One year holds each day: the year a day number names.
proof fn lemma_year_unique(y: int, days: int)
    requires
        year_holds(y, days),
    ensures
        year_of_day(days) == y,
{
    let z = year_of_day(days);
    assert(year_holds(z, days));
    if z < y {
        lemma_years_ordered(z, y);
    } else if y < z {
        lemma_years_ordered(y, z);
    }
}

/// Day number of the same day of the next month (or that month's last day),
/// or `None` where that leaves the calendar.
pub uninterp spec fn month_after(days: int) -> Option<i32>;

/// Text of the date with the given day number in the `%d-%m-%Y` format.
pub uninterp spec fn date_text(days: int) -> Seq<char>;

/// The characters that the `%d-%m-%Y` format writes.
pub open spec fn is_date_char(c: char) -> bool {
    ('0' <= c && c <= '9') || c == '-' || c == '+'
}

/// Relies on chrono's `NaiveDate::parse_from_str`: the parsed date, whose day
/// number (`num_days_from_ce`) always lies in chrono's calendar.
#[verifier::external_body]
fn parse_dmy(text: &str) -> (r: Option<i32>)
    ensures
        r == parsed_dmy(text@),
        r matches Some(n) ==> day_in_range(n as int),
{
    NaiveDate::parse_from_str(text, FORMAT_DATE).ok().map(|d| d.num_days_from_ce())
}

/// Relies on chrono's `Datelike::year` of the date with that day number
/// (`NaiveDate::from_num_days_from_ce_opt`, which is `Some` in the calendar):
/// the proleptic Gregorian year holding that day.
#[verifier::external_body]
fn year_of(days: i32) -> (r: i32)
    requires
        day_in_range(days as int),
    ensures
        year_holds(r as int, days as int),
{
    NaiveDate::from_num_days_from_ce_opt(days).unwrap().year()
}

/// Relies on chrono's `NaiveDate::checked_add_months` by one month: `None`
/// where the result leaves the calendar, else a date in it.
#[verifier::external_body]
fn one_month_later(days: i32) -> (r: Option<i32>)
    requires
        day_in_range(days as int),
    ensures
        r == month_after(days as int),
        r matches Some(n) ==> day_in_range(n as int),
{
    NaiveDate::from_num_days_from_ce_opt(days).unwrap().checked_add_months(Months::new(1)).map(
        |d| d.num_days_from_ce(),
    )
}

/// Relies on chrono's `NaiveDate::format` with `%d-%m-%Y`: two-digit day and
/// month, the year in at least four digits with a sign outside 0..=9999, all
/// joined by `-`.
#[verifier::external_body]
pub(crate) fn format_date(days: i32) -> (r: String)
    requires
        day_in_range(days as int),
    ensures
        r@ == date_text(days as int),
        forall|i: int| 0 <= i < r@.len() ==> is_date_char(#[trigger] r@[i]),
{
    NaiveDate::from_num_days_from_ce_opt(days).unwrap().format(FORMAT_DATE).to_string()
}

/// Relies on chrono's `Local::now().naive_local()`: the local date's day number,
/// the seconds since midnight (below 86400) and the nanoseconds (below two
/// billion, leap second included).
#[verifier::external_body]
fn local_now() -> (r: (i32, u32, u32))
    ensures
        day_in_range(r.0 as int),
        r.1 < 86400,
        r.2 < 2_000_000_000,
{
    let now = Local::now().naive_local();
    (now.num_days_from_ce(), now.num_seconds_from_midnight(), now.nanosecond())
}

/// The local time now.
pub fn now() -> (r: MyDateTime)
    ensures
        r.secs < 86400,
        r.nanos < 2_000_000_000,
{
    let (days, secs, nanos) = local_now();
    MyDateTime { date: MyDate::new(days), secs, nanos }
}

/// Why a due-date text gives no date.
#[derive(Clone, Copy, Debug, PartialEq, Eq, Structural)]
pub enum DateError {
    /// The text does not read as day-month(-year).
    Unparsable,
    /// The text has no `-` and is none of the accepted words.
    WrongFormat,
    /// The date it names lies outside the calendar.
    OutOfRange,
}

/// Day of the week of a day number: 0 for Monday up to 6 for Sunday
/// (day 1, January 1 of year 1, was a Monday).
pub open spec fn weekday_of(days: int) -> int {
    (days + 6) % 7
}

/// The accepted weekday names, Monday first.
pub open spec fn weekday_number(text: Seq<char>) -> Option<int> {
    if text == "monday"@ {
        Some(0)
    } else if text == "tuesday"@ {
        Some(1)
    } else if text == "wednesday"@ {
        Some(2)
    } else if text == "thursday"@ {
        Some(3)
    } else if text == "friday"@ {
        Some(4)
    } else if text == "saturday"@ {
        Some(5)
    } else if text == "sunday"@ {
        Some(6)
    } else {
        None
    }
}

/// The accepted words that name a date relative to today, by position:
/// "today", "tomorrow", "next week", "next month".
pub open spec fn relative_word(text: Seq<char>) -> Option<int> {
    if text == "today"@ {
        Some(0)
    } else if text == "tomorrow"@ {
        Some(1)
    } else if text == "next week"@ {
        Some(2)
    } else if text == "next month"@ {
        Some(3)
    } else {
        None
    }
}

/// The day `n` days after `today`, where it is in the calendar.
pub open spec fn shifted(today: int, n: int) -> Result<int, DateError> {
    if day_in_range(today + n) {
        Ok(today + n)
    } else {
        Err(DateError::OutOfRange)
    }
}

pub open spec fn from_parsed(p: Option<i32>) -> Result<int, DateError> {
    match p {
        Some(n) => Ok(n as int),
        None => Err(DateError::Unparsable),
    }
}

/// The date a relative word names: today, one day later, seven days later, or
/// one month later (thirty days later where a month later leaves the calendar).
pub open spec fn relative_date(word: int, today: int) -> Result<int, DateError> {
    if word == 0 {
        Ok(today)
    } else if word == 1 {
        shifted(today, 1)
    } else if word == 2 {
        shifted(today, 7)
    } else {
        match month_after(today) {
            Some(n) => Ok(n as int),
            None => shifted(today, 30),
        }
    }
}

/// Days from a day of weekday `from` to the next day of weekday `target`
/// strictly after it: between 1 and 7.
pub open spec fn days_to_weekday(from: int, target: int) -> int {
    (target - from + 6) % 7 + 1
}

/// The date that a due-date text names, seen on day `today`.
pub open spec fn due_date_of(text: Seq<char>, today: int) -> Result<int, DateError> {
    let dashes = occurrences(text, '-');
    if dashes == 1 {
        from_parsed(parsed_dmy(text + seq!['-'] + decimal_text(year_of_day(today))))
    } else if dashes == 0 {
        match relative_word(text) {
            Some(w) => relative_date(w, today),
            None => match weekday_number(text) {
                Some(w) => shifted(today, days_to_weekday(weekday_of(today), w)),
                None => Err(DateError::WrongFormat),
            },
        }
    } else {
        from_parsed(parsed_dmy(text))
    }
}

/// A weekday name names the next day of that weekday strictly after today:
/// one to seven days later and on that weekday, or no date, out of range,
/// exactly where that day leaves the calendar.
pub proof fn lemma_weekday_name_date(text: Seq<char>, today: int)
    requires
        weekday_number(text) is Some,
    ensures
        ({
            let w = weekday_number(text)->0;
            match due_date_of(text, today) {
                Ok(d) => weekday_of(d) == w && today < d <= today + 7,
                Err(e) => e == DateError::OutOfRange && !day_in_range(
                    today + days_to_weekday(weekday_of(today), w),
                ),
            }
        }),
{
    reveal_strlit("monday");
    reveal_strlit("tuesday");
    reveal_strlit("wednesday");
    reveal_strlit("thursday");
    reveal_strlit("friday");
    reveal_strlit("saturday");
    reveal_strlit("sunday");
    reveal_strlit("today");
    reveal_strlit("tomorrow");
    reveal_strlit("next week");
    reveal_strlit("next month");
    assert(relative_word(text) is None);
    lemma_no_occurrences(text, '-');
    let w = weekday_number(text)->0;
    let k = days_to_weekday(weekday_of(today), w);
    assert(weekday_of(today + k) == w);
}

/// A date result, with the date as its day number.
pub open spec fn date_result(r: Result<MyDate, DateError>) -> Result<int, DateError> {
    match r {
        Ok(d) => Ok(d@),
        Err(e) => Err(e),
    }
}

fn weekday_index(text: &str) -> (r: Option<u32>)
    ensures
        r matches Some(w) ==> weekday_number(text@) == Some(w as int),
        r is None ==> weekday_number(text@) is None,
{
    if same_text(text, "monday") {
        Some(0)
    } else if same_text(text, "tuesday") {
        Some(1)
    } else if same_text(text, "wednesday") {
        Some(2)
    } else if same_text(text, "thursday") {
        Some(3)
    } else if same_text(text, "friday") {
        Some(4)
    } else if same_text(text, "saturday") {
        Some(5)
    } else if same_text(text, "sunday") {
        Some(6)
    } else {
        None
    }
}

fn relative_word_index(text: &str) -> (r: Option<u32>)
    ensures
        r matches Some(w) ==> relative_word(text@) == Some(w as int),
        r is None ==> relative_word(text@) is None,
{
    if same_text(text, "today") {
        Some(0)
    } else if same_text(text, "tomorrow") {
        Some(1)
    } else if same_text(text, "next week") {
        Some(2)
    } else if same_text(text, "next month") {
        Some(3)
    } else {
        None
    }
}

/// The day of the week of a date, 0 for Monday.
pub fn weekday_of_date(d: MyDate) -> (r: u32)
    ensures
        r == weekday_of(d@),
        r < 7,
{
    let days = d.get_0();
    let shifted_days: i64 = days as i64 + 98_000_006;
    assert(shifted_days % 7 == (days + 6) % 7) by {
        assert(98_000_006 == 7 * 14_000_000 + 6);
    }
    (shifted_days % 7) as u32
}

/// The date `n` days after `today`.
fn add_days(today: MyDate, n: i32) -> (r: Result<MyDate, DateError>)
    requires
        0 <= n <= 30,
    ensures
        date_result(r) == shifted(today@, n as int),
{
    let days = today.get_0();
    let later: i64 = days as i64 + n as i64;
    if later <= MAX_DAY as i64 {
        Ok(MyDate::new(later as i32))
    } else {
        Err(DateError::OutOfRange)
    }
}

spec fn weekday_after(from: int, n: int) -> int {
    (from + n) % 7
}

/// Counts the days from weekday `from` to the next `target` strictly after it.
fn days_until(from: u32, target: u32) -> (r: u32)
    requires
        from < 7,
        target < 7,
    ensures
        r == days_to_weekday(from as int, target as int),
        1 <= r <= 7,
{
    let mut next: u32 = (from + 1) % 7;
    let mut counter: u32 = 1;
    let ghost goal = days_to_weekday(from as int, target as int);
    assert((from + goal) % 7 == target);
    while next != target
        invariant
            from < 7,
            target < 7,
            goal == days_to_weekday(from as int, target as int),
            (from + goal) % 7 == target,
            1 <= goal <= 7,
            1 <= counter <= goal,
            next == (from + counter) % 7,
            forall|j: int| 1 <= j < counter ==> #[trigger] weekday_after(from as int, j) != target,
        decreases 7 - counter,
    {
        counter = counter + 1;
        next = (next + 1) % 7;
    }
    assert(counter == goal) by {
        assert(weekday_after(from as int, goal) == target);
    }
    counter
}

/// The next date strictly after `today` that falls on the named weekday.
pub fn get_next_weekday(day_str: &str, today: MyDate) -> (r: Result<MyDate, DateError>)
    ensures
        date_result(r) == match weekday_number(day_str@) {
            Some(w) => shifted(today@, days_to_weekday(weekday_of(today@), w)),
            None => Err(DateError::WrongFormat),
        },
{
    match weekday_index(day_str) {
        Some(target) => {
            let from = weekday_of_date(today);
            let gap = days_until(from, target);
            add_days(today, gap as i32)
        },
        None => Err(DateError::WrongFormat),
    }
}

/// The date that one of the relative words names, seen on day `today`.
pub fn get_language_date(due_date: &str, today: MyDate) -> (r: Result<MyDate, DateError>)
    ensures
        date_result(r) == match relative_word(due_date@) {
            Some(w) => relative_date(w, today@),
            None => Err(DateError::WrongFormat),
        },
{
    match relative_word_index(due_date) {
        Some(0) => Ok(today),
        Some(1) => add_days(today, 1),
        Some(2) => add_days(today, 7),
        Some(_) => match one_month_later(today.get_0()) {
            Some(n) => Ok(MyDate::new(n)),
            None => add_days(today, 30),
        },
        None => Err(DateError::WrongFormat),
    }
}

fn date_from_parsed(p: Option<i32>) -> (r: Result<MyDate, DateError>)
    requires
        p matches Some(n) ==> day_in_range(n as int),
    ensures
        date_result(r) == from_parsed(p),
{
    match p {
        Some(n) => Ok(MyDate::new(n)),
        None => Err(DateError::Unparsable),
    }
}

/// The date that a due-date text names, seen on day `today`: `dd-mm` in the
/// year of `today`, `dd-mm-YYYY`, one of the relative words, or a weekday name
/// (its next occurrence strictly after today).
pub fn parse_due_date(due_str: &str, today: MyDate) -> (r: Result<MyDate, DateError>)
    ensures
        date_result(r) == due_date_of(due_str@, today@),
{
    let dashes = count_char(due_str, '-');
    if dashes == 1 {
        let mut full = due_str.to_owned();
        proof {
            reveal_strlit("-");
        }
        full.append("-");
        let year = year_of(today.get_0());
        proof {
            lemma_year_unique(year as int, today@);
        }
        push_decimal(&mut full, year);
        assert(full@ =~= due_str@ + seq!['-'] + decimal_text(year as int));
        date_from_parsed(parse_dmy(full.as_str()))
    } else if dashes == 0 {
        match relative_word_index(due_str) {
            Some(_) => get_language_date(due_str, today),
            None => get_next_weekday(due_str, today),
        }
    } else {
        date_from_parsed(parse_dmy(due_str))
    }
}

/// The date that a due-date text names today (see `parse_due_date`). Texts
/// with two or more `-` do not depend on the day; those with none that are no
/// accepted word are refused whatever the day.
pub fn convert_str_valid_date(due_str: &str) -> (r: Result<MyDate, DateError>)
    ensures
        occurrences(due_str@, '-') >= 2 ==> date_result(r) == from_parsed(parsed_dmy(due_str@)),
        (r == Err::<MyDate, DateError>(DateError::WrongFormat)) <== (occurrences(due_str@, '-')
            == 0 && relative_word(due_str@) is None && weekday_number(due_str@) is None),
        exists|today: MyDate| date_result(r) == due_date_of(due_str@, #[trigger] today@),
{
    let today = now().date;
    parse_due_date(due_str, today)
}

pub open spec fn is_digit(c: char) -> bool {
    '0' <= c && c <= '9'
}

/// A two-digit day of the month: 01 to 31.
pub open spec fn day_digits(a: char, b: char) -> bool {
    ||| a == '0' && '1' <= b && b <= '9'
    ||| (a == '1' || a == '2') && is_digit(b)
    ||| a == '3' && (b == '0' || b == '1')
}

/// A two-digit month: 01 to 12.
pub open spec fn month_digits(a: char, b: char) -> bool {
    ||| a == '0' && '1' <= b && b <= '9'
    ||| a == '1' && (b == '0' || b == '1' || b == '2')
}

/// A four-digit year from 1900 to 2099.
pub open spec fn year_digits(a: char, b: char, c: char, d: char) -> bool {
    &&& (a == '1' && b == '9') || (a == '2' && b == '0')
    &&& is_digit(c)
    &&& is_digit(d)
}

/// The shape of a typed date: `dd-mm` or `dd-mm-YYYY`.
pub open spec fn date_shape(s: Seq<char>) -> bool {
    &&& s.len() == 5 || s.len() == 10
    &&& day_digits(s[0], s[1])
    &&& s[2] == '-'
    &&& month_digits(s[3], s[4])
    &&& s.len() == 10 ==> s[5] == '-' && year_digits(s[6], s[7], s[8], s[9])
}

/// The due-date texts a prompt accepts: a date shape, the empty text, a
/// relative word or a weekday name.
pub open spec fn accepted_date_text(s: Seq<char>) -> bool {
    ||| date_shape(s)
    ||| s.len() == 0
    ||| relative_word(s) is Some
    ||| weekday_number(s) is Some
}

fn char_is_digit(c: char) -> (r: bool)
    ensures
        r == is_digit(c),
{
    '0' <= c && c <= '9'
}

fn has_date_shape(s: &str) -> (r: bool)
    ensures
        r == date_shape(s@),
{
    let n = s.unicode_len();
    if n != 5 && n != 10 {
        return false;
    }
    let d0 = s.get_char(0);
    let d1 = s.get_char(1);
    let m0 = s.get_char(3);
    let m1 = s.get_char(4);
    let day_ok = (d0 == '0' && '1' <= d1 && d1 <= '9') || ((d0 == '1' || d0 == '2') && char_is_digit(
        d1,
    )) || (d0 == '3' && (d1 == '0' || d1 == '1'));
    let month_ok = (m0 == '0' && '1' <= m1 && m1 <= '9') || (m0 == '1' && (m1 == '0' || m1 == '1'
        || m1 == '2'));
    if !(day_ok && s.get_char(2) == '-' && month_ok) {
        return false;
    }
    if n == 5 {
        return true;
    }
    let y0 = s.get_char(6);
    let y1 = s.get_char(7);
    s.get_char(5) == '-' && ((y0 == '1' && y1 == '9') || (y0 == '2' && y1 == '0')) && char_is_digit(
        s.get_char(8),
    ) && char_is_digit(s.get_char(9))
}

/// Accepts what a due-date prompt may hold: `dd-mm` or `dd-mm-YYYY` (day 01
/// to 31, month 01 to 12, year 1900 to 2099), nothing, a relative word or a
/// weekday name.
pub fn validate_regex(s: &String) -> (r: Result<(), &'static str>)
    ensures
        r is Ok <==> accepted_date_text(s@),
        r matches Err(e) ==> e@ == "Invalid date!"@,
{
    let text = s.as_str();
    if has_date_shape(text) || text.is_empty() || relative_word_index(text).is_some()
        || weekday_index(text).is_some() {
        Ok(())
    } else {
        Err("Invalid date!")
    }
}

} // verus!
