use chrono::{Datelike, NaiveDate, Weekday};
use rustdo::{
    convert_str_valid_date, count_char, get_language_date, get_next_weekday,
    parse_due_date, validate_regex, weekday_of_date, DateError, MyDate,
};

fn day(y: i32, m: u32, d: u32) -> MyDate {
    MyDate::from_days(NaiveDate::from_ymd_opt(y, m, d).unwrap().num_days_from_ce()).unwrap()
}

#[test]
fn day_month_takes_the_current_year() {
    let today = day(2024, 6, 1);
    assert_eq!(parse_due_date("15-03", today), Ok(day(2024, 3, 15)));
}

#[test]
fn full_date_is_read_as_given() {
    let today = day(2024, 6, 1);
    assert_eq!(parse_due_date("15-03-2024", today), Ok(day(2024, 3, 15)));
    assert_eq!(parse_due_date("01-01-1999", today), Ok(day(1999, 1, 1)));
    assert_eq!(convert_str_valid_date("29-02-2024"), Ok(day(2024, 2, 29)));
}

#[test]
fn weekday_is_the_next_one_strictly_after_today() {
    // 2024-03-13 is a Wednesday
    let wednesday = day(2024, 3, 13);
    assert_eq!(parse_due_date("friday", wednesday), Ok(day(2024, 3, 15)));
    // on a Friday, "friday" is a week later
    let friday = day(2024, 3, 15);
    assert_eq!(parse_due_date("friday", friday), Ok(day(2024, 3, 22)));
    assert_eq!(get_next_weekday("thursday", friday), Ok(day(2024, 3, 21)));
    assert_eq!(get_next_weekday("saturday", friday), Ok(day(2024, 3, 16)));
    assert_eq!(get_next_weekday("someday", friday), Err(DateError::WrongFormat));
}

#[test]
fn weekday_matches_the_calendar_library() {
    for (y, m, d) in [(2024, 3, 15), (1, 1, 1), (1970, 1, 1), (2000, 2, 29), (-44, 3, 15)] {
        let n = NaiveDate::from_ymd_opt(y, m, d).unwrap();
        let expected = n.weekday().num_days_from_monday();
        assert_eq!(weekday_of_date(day(y, m, d)), expected);
    }
    assert_eq!(NaiveDate::from_ymd_opt(2024, 3, 15).unwrap().weekday(), Weekday::Fri);
    assert_eq!(weekday_of_date(day(2024, 3, 15)), 4);
}

#[test]
fn relative_words() {
    let today = day(2024, 1, 31);
    assert_eq!(parse_due_date("today", today), Ok(today));
    assert_eq!(parse_due_date("tomorrow", today), Ok(day(2024, 2, 1)));
    assert_eq!(parse_due_date("next week", today), Ok(day(2024, 2, 7)));
    assert_eq!(parse_due_date("next month", today), Ok(day(2024, 2, 29)));
    assert_eq!(get_language_date("next month", day(2024, 3, 15)), Ok(day(2024, 4, 15)));
    assert_eq!(get_language_date("yesterday", today), Err(DateError::WrongFormat));
}

#[test]
fn rejected_texts() {
    let today = day(2024, 6, 1);
    assert_eq!(parse_due_date("soon", today), Err(DateError::WrongFormat));
    assert_eq!(parse_due_date("", today), Err(DateError::WrongFormat));
    assert_eq!(parse_due_date("32-13-2024", today), Err(DateError::Unparsable));
    assert_eq!(parse_due_date("31-02", today), Err(DateError::Unparsable));
    assert_eq!(convert_str_valid_date("soon"), Err(DateError::WrongFormat));
}

#[test]
fn tomorrow_at_the_calendar_end_is_out_of_range() {
    let last = MyDate::from_days(rustdo::MAX_DAY).unwrap();
    assert_eq!(parse_due_date("tomorrow", last), Err(DateError::OutOfRange));
    assert_eq!(parse_due_date("today", last), Ok(last));
}

#[test]
fn counts_dashes() {
    assert_eq!(count_char("15-03-2024", '-'), 2);
    assert_eq!(count_char("friday", '-'), 0);
    assert_eq!(count_char("", '-'), 0);
    assert_eq!(count_char("a-é-b-", '-'), 3);
}

#[test]
fn prompt_accepts_dates_words_and_nothing() {
    for ok in ["15-03", "15-03-2024", "01-12-1900", "31-01-2099", "", "today", "next month", "sunday"] {
        assert_eq!(validate_regex(&ok.to_string()), Ok(()), "{}", ok);
    }
    for bad in ["32-01", "00-01", "15-13", "15-00", "15-03-2100", "15-03-1899", "1-3", "15/03", "15-03-", "Friday", "soon"] {
        assert_eq!(validate_regex(&bad.to_string()), Err("Invalid date!"), "{}", bad);
    }
}


#[test]
fn year_bounds_match_the_calendar_library() {
    let before = |y: i64| {
        let p = y - 1;
        365 * p + p.div_euclid(4) - p.div_euclid(100) + p.div_euclid(400)
    };
    for y in [-401i64, -100, -1, 0, 1, 2, 4, 100, 400, 1900, 2000, 2024, 262142] {
        let first = NaiveDate::from_ymd_opt(y as i32, 1, 1).unwrap().num_days_from_ce() as i64;
        let last = NaiveDate::from_ymd_opt(y as i32, 12, 31).unwrap().num_days_from_ce() as i64;
        assert_eq!(first, before(y) + 1, "{}", y);
        assert_eq!(last, before(y + 1), "{}", y);
    }
}
