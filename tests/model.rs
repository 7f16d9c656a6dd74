use chrono::{Datelike, NaiveDate};
use rustdo::{MyDate, MyDateTime, Progress, Todo, MAXPRIORITY, MAX_DAY, MIN_DAY};

fn day(y: i32, m: u32, d: u32) -> MyDate {
    MyDate::from_days(NaiveDate::from_ymd_opt(y, m, d).unwrap().num_days_from_ce()).unwrap()
}

fn task(priority: u32) -> Todo {
    let created = MyDateTime { date: day(2024, 1, 1), secs: 0, nanos: 0 };
    Todo::from_parts(
        "id-1".to_string(),
        "task".to_string(),
        priority,
        created,
        None,
        false,
        Progress::Zero,
    )
}

#[test]
fn progress_saturates_at_both_ends() {
    assert_eq!(Progress::Full.up(), Progress::Full);
    assert_eq!(Progress::Zero.down(), Progress::Zero);
}

#[test]
fn progress_up_then_down_returns_except_at_full() {
    let levels = [
        Progress::Zero,
        Progress::Quarter,
        Progress::Half,
        Progress::ThreeQuarter,
        Progress::Full,
    ];
    for level in levels {
        if level != Progress::Full {
            assert_eq!(level.up().down(), level);
        } else {
            assert_eq!(level.up().down(), Progress::ThreeQuarter);
        }
        if level != Progress::Zero {
            assert_eq!(level.down().up(), level);
        } else {
            assert_eq!(level.down().up(), Progress::Quarter);
        }
    }
}

#[test]
fn progress_steps_are_adjacent() {
    assert_eq!(Progress::Zero.up(), Progress::Quarter);
    assert_eq!(Progress::Quarter.up(), Progress::Half);
    assert_eq!(Progress::Half.up(), Progress::ThreeQuarter);
    assert_eq!(Progress::ThreeQuarter.up(), Progress::Full);
    assert_eq!(Progress::Full.down(), Progress::ThreeQuarter);
    assert_eq!(Progress::Half.down(), Progress::Quarter);
}

#[test]
fn priority_stays_within_bounds_on_repeated_steps() {
    let mut t = task(0);
    for _ in 0..10 {
        t.increase_priority();
        assert!(t.get_priority() <= MAXPRIORITY);
    }
    assert_eq!(t.get_priority(), 3);
    for _ in 0..10 {
        t.decrease_priority();
    }
    assert_eq!(t.get_priority(), 0);
    t.increase_priority();
    assert_eq!(t.get_priority(), 1);
    t.decrease_priority();
    assert_eq!(t.get_priority(), 0);
}

#[test]
fn toggle_and_progress_change_one_field() {
    let mut t = task(2);
    t.toggle_read();
    assert!(t.is_complete());
    t.toggle_read();
    assert!(!t.is_complete());
    t.increase_progress();
    assert_eq!(*t.get_progress(), Progress::Quarter);
    t.decrease_progress();
    t.decrease_progress();
    assert_eq!(*t.get_progress(), Progress::Zero);
    assert_eq!(t.get_priority(), 2);
    assert_eq!(t.get_title(), "task");
}

#[test]
fn new_task_starts_open_with_fresh_id() {
    let t = Todo::new("write report", 2, None);
    assert_eq!(t.get_title(), "write report");
    assert_eq!(t.get_priority(), 2);
    assert!(!t.is_complete());
    assert_eq!(*t.get_progress(), Progress::Zero);
    assert!(t.get_due_date().is_none());
    assert_eq!(t.get_id().len(), 36);
    assert!(t.get_id().chars().all(|c| c == '-' || c.is_ascii_digit() || ('a'..='f').contains(&c)));
    let other = Todo::new("write report", 2, None);
    assert_ne!(t.get_id(), other.get_id());
}

#[test]
fn new_task_reads_its_due_date() {
    let t = Todo::new("pay rent", 1, Some("15-03-2024"));
    assert_eq!(*t.get_due_date(), Some(day(2024, 3, 15)));
    let u = Todo::new("pay rent", 1, Some("not a date"));
    assert!(u.get_due_date().is_none());
}

#[test]
fn set_id_and_duplicate() {
    let mut t = task(1);
    t.set_id("abc");
    assert_eq!(t.get_id(), "abc");
    let copy = t.duplicate();
    assert_eq!(copy.get_id(), "abc");
    assert_eq!(copy.get_priority(), 1);
    assert_eq!(copy.get_created_date(), t.get_created_date());
}

#[test]
fn day_range_matches_the_calendar_library() {
    assert_eq!(NaiveDate::MIN.num_days_from_ce(), MIN_DAY);
    assert_eq!(NaiveDate::MAX.num_days_from_ce(), MAX_DAY);
    assert!(MyDate::from_days(MAX_DAY + 1).is_none());
    assert!(MyDate::from_days(MIN_DAY - 1).is_none());
    assert_eq!(MyDate::from_days(738960).unwrap().get_0(), 738960);
}
