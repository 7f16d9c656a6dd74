use chrono::{Datelike, NaiveDate};
use rustdo::{
    convert_todo_str, get_due_date, get_priority_symbol, get_progress_str, todos_to_md, DueTone,
    MyDate, MyDateTime, Progress, Todo,
};

fn day(y: i32, m: u32, d: u32) -> MyDate {
    MyDate::from_days(NaiveDate::from_ymd_opt(y, m, d).unwrap().num_days_from_ce()).unwrap()
}

fn task(priority: u32, due: Option<MyDate>, completed: bool, progress: Progress) -> Todo {
    Todo::from_parts(
        "0190a1b2-c3d4-7e5f-8a9b-0c1d2e3f4a5b".to_string(),
        "Write % report".to_string(),
        priority,
        MyDateTime { date: day(2024, 3, 1), secs: 3600, nanos: 5 },
        due,
        completed,
        progress,
    )
}

#[test]
fn priority_symbols() {
    assert_eq!(get_priority_symbol(0), "_");
    assert_eq!(get_priority_symbol(1), "!");
    assert_eq!(get_priority_symbol(3), "!!!");
}

#[test]
fn progress_bars() {
    assert_eq!(get_progress_str(&task(0, None, false, Progress::Zero)), "[        ]");
    assert_eq!(get_progress_str(&task(0, None, false, Progress::Quarter)), "[##      ]");
    assert_eq!(get_progress_str(&task(0, None, false, Progress::Half)), "[####    ]");
    assert_eq!(get_progress_str(&task(0, None, false, Progress::ThreeQuarter)), "[######  ]");
    assert_eq!(get_progress_str(&task(0, None, false, Progress::Full)), "[########]");
    assert_eq!(get_progress_str(&task(0, None, true, Progress::Zero)), "[########]");
}

#[test]
fn due_date_tones() {
    let today = day(2024, 3, 10);
    assert_eq!(get_due_date(&task(0, None, false, Progress::Zero), today), None);
    assert_eq!(get_due_date(&task(0, Some(day(2024, 3, 11)), false, Progress::Zero), today), Some(DueTone::Future));
    assert_eq!(get_due_date(&task(0, Some(today), false, Progress::Zero), today), Some(DueTone::Today));
    assert_eq!(get_due_date(&task(0, Some(day(2024, 3, 9)), false, Progress::Zero), today), Some(DueTone::Past));
    assert_eq!(get_due_date(&task(0, Some(day(2024, 3, 9)), true, Progress::Zero), today), Some(DueTone::Muted));
}

#[test]
fn markdown_line_of_a_task() {
    let open = task(2, Some(day(2024, 3, 15)), false, Progress::Half);
    assert_eq!(
        convert_todo_str(&open),
        "- [ ] (!!) Write % report (due: 15-03-2024) [####    ] % 01-03-2024 3600s 5ns % 0190a1b2-c3d4-7e5f-8a9b-0c1d2e3f4a5b\n"
    );
    let done = task(0, None, true, Progress::Quarter);
    assert_eq!(
        convert_todo_str(&done),
        "- [x] (_) Write % report (due: never) [##      ] % 01-03-2024 3600s 5ns % 0190a1b2-c3d4-7e5f-8a9b-0c1d2e3f4a5b\n"
    );
}

#[test]
fn markdown_dates_are_day_month_year() {
    let early = task(3, Some(day(2024, 3, 5)), false, Progress::Zero);
    assert!(convert_todo_str(&early).contains("(!!!) Write % report (due: 05-03-2024) [        ] % 01-03-2024 3600s 5ns %"));
    let far = task(0, Some(day(10000, 1, 1)), false, Progress::Zero);
    assert!(convert_todo_str(&far).contains("(due: 01-01-+10000)"));
}

#[test]
fn markdown_line_keeps_creation_time_and_progress_level() {
    let mut later = task(0, None, true, Progress::Full);
    let mut earlier = task(0, None, true, Progress::Zero);
    assert_ne!(convert_todo_str(&later), convert_todo_str(&earlier));
    later = Todo::from_parts(
        "same".to_string(),
        "t".to_string(),
        0,
        MyDateTime { date: day(2024, 3, 1), secs: 10, nanos: 0 },
        None,
        false,
        Progress::Zero,
    );
    earlier = Todo::from_parts(
        "same".to_string(),
        "t".to_string(),
        0,
        MyDateTime { date: day(2024, 3, 1), secs: 9, nanos: 0 },
        None,
        false,
        Progress::Zero,
    );
    assert_ne!(convert_todo_str(&later), convert_todo_str(&earlier));
    assert!(convert_todo_str(&later).contains("% 01-03-2024 10s 0ns %"));
}

#[test]
fn markdown_text_joins_lines() {
    let todos = vec![
        task(1, None, false, Progress::Zero),
        task(0, Some(day(2024, 3, 15)), true, Progress::Full),
    ];
    let text = todos_to_md(&todos);
    assert_eq!(text, format!("{}{}", convert_todo_str(&todos[0]), convert_todo_str(&todos[1])));
    assert_eq!(text.lines().count(), 2);
    assert_eq!(todos_to_md(&Vec::new()), "");
}
