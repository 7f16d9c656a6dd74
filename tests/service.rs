use chrono::{Datelike, NaiveDate};
use rustdo::{
    add_todo, apply_action, convert_empty_str_option, delete_completed, edit_todo,
    flag_from_text, get_todo_tuple, sorting_method_from_name, Action, Effect, MyDate,
    MyDateTime, Progress, Session, SortingMethod, Todo,
};

fn day(y: i32, m: u32, d: u32) -> MyDate {
    MyDate::from_days(NaiveDate::from_ymd_opt(y, m, d).unwrap().num_days_from_ce()).unwrap()
}

fn task(id: &str, priority: u32, completed: bool) -> Todo {
    Todo::from_parts(
        id.to_string(),
        format!("title {}", id),
        priority,
        MyDateTime { date: day(2024, 1, 1), secs: 0, nanos: 0 },
        None,
        completed,
        Progress::Half,
    )
}

fn session() -> Session {
    Session { pos: 0, sorting: SortingMethod::Due }
}

#[test]
fn empty_title_adds_nothing() {
    assert!(add_todo("", "", 0).is_none());
    assert!(add_todo("", "15-03-2024", 2).is_none());
    assert!(add_todo("", "", 7).is_none());
}

#[test]
fn add_form_builds_a_task() {
    let t = add_todo("buy milk", "15-03-2024", 2).unwrap();
    assert_eq!(t.get_title(), "buy milk");
    assert_eq!(t.get_priority(), 2);
    assert!(!t.is_complete());
    assert_eq!(*t.get_due_date(), Some(day(2024, 3, 15)));
    assert_eq!(t.get_id().len(), 36);
    let u = add_todo("buy milk", "", 0).unwrap();
    assert!(u.get_due_date().is_none());
}

#[test]
fn edit_form_keeps_the_identifier() {
    let original = task("keep-me", 3, true);
    let today = day(2025, 1, 10);
    let edited = edit_todo(&original, "renamed", "01-02-2025", 1, today).unwrap();
    assert_eq!(edited.get_id(), "keep-me");
    assert_eq!(edited.get_title(), "renamed");
    assert_eq!(edited.get_priority(), 1);
    assert_eq!(*edited.get_due_date(), Some(day(2025, 2, 1)));
    assert_eq!(edited.get_created_date(), original.get_created_date());
    assert!(edited.is_complete());
    assert_eq!(*edited.get_progress(), Progress::Half);
    let relative = edit_todo(&original, "renamed", "tomorrow", 1, today).unwrap();
    assert_eq!(*relative.get_due_date(), Some(day(2025, 1, 11)));
    let cleared = edit_todo(&original, "renamed", "", 1, today).unwrap();
    assert!(cleared.get_due_date().is_none());
    assert!(edit_todo(&original, "", "", 0, today).is_none());
}

#[test]
fn empty_text_is_no_value() {
    assert_eq!(convert_empty_str_option(""), None);
    assert_eq!(convert_empty_str_option("x"), Some("x"));
}

#[test]
fn completed_tasks_are_listed_for_deletion() {
    let todos = vec![task("a", 0, true), task("b", 0, false), task("c", 0, true)];
    assert_eq!(delete_completed(&todos), vec!["a".to_string(), "c".to_string()]);
    assert!(delete_completed(&Vec::new()).is_empty());
}

#[test]
fn pairs_give_their_tasks_in_order() {
    let pairs = vec![("x".to_string(), task("x", 1, false)), ("y".to_string(), task("y", 2, true))];
    let todos = get_todo_tuple(pairs);
    let ids: Vec<&str> = todos.iter().map(|t| t.get_id()).collect();
    assert_eq!(ids, vec!["x", "y"]);
}

#[test]
fn single_field_actions_update_the_task_at_the_cursor() {
    let todos = vec![task("a", 1, false), task("b", 3, false)];
    let (next, effect) = apply_action(session(), &todos, 1, Action::IncreasePriority);
    assert_eq!(next, Session { pos: 1, sorting: SortingMethod::Due });
    match effect {
        Effect::Update(t) => {
            assert_eq!(t.get_id(), "b");
            assert_eq!(t.get_priority(), 3);
        }
        other => panic!("unexpected effect {:?}", other),
    }
    match apply_action(session(), &todos, 0, Action::ToggleRead).1 {
        Effect::Update(t) => {
            assert_eq!(t.get_id(), "a");
            assert!(t.is_complete());
        }
        other => panic!("unexpected effect {:?}", other),
    }
    match apply_action(session(), &todos, 0, Action::DecreaseProgress).1 {
        Effect::Update(t) => assert_eq!(*t.get_progress(), Progress::Quarter),
        other => panic!("unexpected effect {:?}", other),
    }
}

#[test]
fn actions_on_an_empty_list_do_nothing() {
    let empty: Vec<Todo> = Vec::new();
    for action in [
        Action::ToggleRead,
        Action::Delete,
        Action::DeleteCompleted,
        Action::Edit,
        Action::IncreaseProgress,
    ] {
        assert!(matches!(apply_action(session(), &empty, 0, action).1, Effect::Nothing));
    }
    assert!(matches!(apply_action(session(), &empty, 0, Action::Add).1, Effect::Add));
}

#[test]
fn delete_sort_and_export_actions() {
    let todos = vec![task("a", 1, true), task("b", 3, false)];
    match apply_action(session(), &todos, 1, Action::Delete).1 {
        Effect::Delete(id) => assert_eq!(id, "b"),
        other => panic!("unexpected effect {:?}", other),
    }
    match apply_action(session(), &todos, 1, Action::DeleteCompleted).1 {
        Effect::DeleteMany(ids) => assert_eq!(ids, vec!["a".to_string()]),
        other => panic!("unexpected effect {:?}", other),
    }
    let (next, effect) = apply_action(session(), &todos, 0, Action::Sort(SortingMethod::Priority));
    assert_eq!(next.sorting, SortingMethod::Priority);
    assert!(matches!(effect, Effect::Nothing));
    assert!(matches!(apply_action(session(), &todos, 0, Action::Export).1, Effect::Export));
    assert!(matches!(apply_action(session(), &todos, 1, Action::Edit).1, Effect::Edit(1)));
    assert!(matches!(apply_action(session(), &todos, 0, Action::Reload).1, Effect::Nothing));
}

#[test]
fn configuration_values() {
    assert_eq!(sorting_method_from_name("priority"), SortingMethod::Priority);
    assert_eq!(sorting_method_from_name("created"), SortingMethod::Created);
    assert_eq!(sorting_method_from_name("due"), SortingMethod::Due);
    assert_eq!(sorting_method_from_name("anything"), SortingMethod::Due);
    assert!(flag_from_text("true"));
    assert!(!flag_from_text("false"));
    assert!(!flag_from_text("yes"));
}
