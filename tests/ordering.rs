use chrono::{Datelike, NaiveDate};
use rustdo::{
    sort_todos, sort_todos_by_created_date_asc, sort_todos_by_due_date_asc,
    sort_todos_by_priority_desc, MyDate, MyDateTime, Progress, SortingMethod, Todo,
};

fn day(y: i32, m: u32, d: u32) -> MyDate {
    MyDate::from_days(NaiveDate::from_ymd_opt(y, m, d).unwrap().num_days_from_ce()).unwrap()
}

fn at(d: u32, secs: u32) -> MyDateTime {
    MyDateTime { date: day(2024, 1, d), secs, nanos: 0 }
}

fn task(id: &str, priority: u32, created: MyDateTime, due: Option<MyDate>, completed: bool) -> Todo {
    Todo::from_parts(
        id.to_string(),
        id.to_string(),
        priority,
        created,
        due,
        completed,
        Progress::Zero,
    )
}

fn ids(todos: &[Todo]) -> Vec<String> {
    todos.iter().map(|t| t.get_id().to_string()).collect()
}

#[test]
fn priority_order_highest_first_completed_last() {
    let mut todos = vec![
        task("p1", 1, at(1, 0), None, false),
        task("p3", 3, at(1, 0), None, false),
        task("p2", 2, at(1, 0), None, false),
    ];
    sort_todos_by_priority_desc(&mut todos);
    let priorities: Vec<u32> = todos.iter().map(|t| t.get_priority()).collect();
    assert_eq!(priorities, vec![3, 2, 1]);

    let mut todos = vec![
        task("p1", 1, at(1, 0), None, false),
        task("p3", 3, at(1, 0), None, true),
        task("p2", 2, at(1, 0), None, false),
    ];
    sort_todos_by_priority_desc(&mut todos);
    let priorities: Vec<u32> = todos.iter().map(|t| t.get_priority()).collect();
    assert_eq!(priorities, vec![2, 1, 3]);
}

#[test]
fn priority_ties_newest_first() {
    let mut todos = vec![
        task("old", 2, at(1, 10), None, false),
        task("new", 2, at(2, 0), None, false),
        task("mid", 2, at(1, 20), None, false),
    ];
    sort_todos_by_priority_desc(&mut todos);
    assert_eq!(ids(&todos), vec!["new", "mid", "old"]);
}

#[test]
fn due_order_earliest_first_absent_last() {
    let mut todos = vec![
        task("none", 0, at(1, 0), None, false),
        task("late", 0, at(1, 0), Some(day(2024, 5, 1)), false),
        task("done", 0, at(1, 0), Some(day(2024, 1, 1)), true),
        task("early", 0, at(1, 0), Some(day(2024, 2, 1)), false),
    ];
    sort_todos_by_due_date_asc(&mut todos);
    assert_eq!(ids(&todos), vec!["early", "late", "none", "done"]);
}

#[test]
fn due_order_ties_newest_first_then_original_order() {
    let mut todos = vec![
        task("a", 0, at(1, 0), Some(day(2024, 2, 1)), false),
        task("b", 0, at(3, 0), Some(day(2024, 2, 1)), false),
        task("c", 0, at(1, 0), None, false),
        task("d", 0, at(2, 0), None, false),
        task("e", 0, at(1, 0), None, false),
        task("f", 0, at(1, 0), Some(day(2024, 2, 1)), true),
        task("g", 0, at(1, 0), Some(day(2024, 2, 1)), true),
    ];
    sort_todos_by_due_date_asc(&mut todos);
    assert_eq!(ids(&todos), vec!["b", "a", "d", "c", "e", "f", "g"]);
    for w in todos.windows(2) {
        if !w[1].is_complete() {
            assert!(!w[0].is_complete());
        }
    }
}

#[test]
fn created_order_newest_first() {
    let mut todos = vec![
        task("first", 3, at(1, 0), None, false),
        task("third", 0, at(3, 0), None, false),
        task("second", 1, at(2, 0), None, true),
        task("fourth", 1, at(4, 0), None, false),
    ];
    sort_todos_by_created_date_asc(&mut todos);
    assert_eq!(ids(&todos), vec!["fourth", "third", "first", "second"]);
}

#[test]
fn created_order_uses_seconds_and_nanoseconds() {
    let mut todos = vec![
        task("a", 0, MyDateTime { date: day(2024, 1, 1), secs: 5, nanos: 1 }, None, false),
        task("b", 0, MyDateTime { date: day(2024, 1, 1), secs: 5, nanos: 2 }, None, false),
        task("c", 0, MyDateTime { date: day(2024, 1, 1), secs: 6, nanos: 0 }, None, false),
    ];
    sort_todos(&mut todos, SortingMethod::Created);
    assert_eq!(ids(&todos), vec!["c", "b", "a"]);
}

#[test]
fn sorting_empty_and_single_lists() {
    let mut empty: Vec<Todo> = Vec::new();
    sort_todos(&mut empty, SortingMethod::Due);
    assert!(empty.is_empty());
    let mut one = vec![task("only", 1, at(1, 0), None, true)];
    sort_todos(&mut one, SortingMethod::Priority);
    assert_eq!(ids(&one), vec!["only"]);
}
