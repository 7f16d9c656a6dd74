//! A personal task tracker: the task model, its three display orders, the key
//! and cursor state machine of the list screen, and the session decisions that
//! turn a resolved action into a change of the task store.

pub mod date_utils;
pub mod md_utils;
pub mod model;
pub mod navigation;
pub mod ordering;
pub mod render;
pub mod service;
pub mod text;

pub use date_utils::{
    convert_str_valid_date, get_language_date, get_next_weekday, now,
    parse_due_date, validate_regex, weekday_of_date, DateError, FORMAT_DATE,
};
pub use md_utils::{convert_todo_str, todos_to_md};
pub use model::{
    Action, KeyEvent, MyDate, MyDateTime, Progress, SortingMethod, Todo, MAXPRIORITY, MAX_DAY,
    MIN_DAY,
};
pub use navigation::{
    add_usize_module, get_pos_overflow, navigate_screen, sub_usize_module, wait_confirm,
    wait_key_event, wait_sort_key, Key, Prompt, Screen, Step,
};
pub use ordering::{
    compare_todos, sort_todos, sort_todos_by_created_date_asc, sort_todos_by_due_date_asc,
    sort_todos_by_priority_desc,
};
pub use render::{get_due_date, get_priority_symbol, get_progress_str, DueTone};
pub use service::{
    add_todo, apply_action, convert_empty_str_option, delete_completed, edit_todo,
    flag_from_text, get_todo_tuple, sorting_method_from_name, Effect, Session,
};
pub use text::count_char;
