use vstd::prelude::*;

use crate::date_utils::{due_date_of, parse_due_date};
use crate::model::{
    due_day,
    due_from,
    priority_down,
    priority_up,
    Action,
    Progress,
    SortingMethod,
    Todo,
    TodoView,
    MyDate,
    MAXPRIORITY,
};
use crate::text::same_text;

verus! {

/// The tasks of a list of (identifier, task) pairs, in order.
pub fn get_todo_tuple(todos_tup: Vec<(String, Todo)>) -> (r: Vec<Todo>)
    ensures
        r@ == todos_tup@.map_values(|p: (String, Todo)| p.1),
{
    let ghost pairs = todos_tup@;
    let mut r: Vec<Todo> = Vec::new();
    for pair in it: todos_tup.into_iter()
        invariant
            pairs == it.seq(),
            r@ == it.seq().take(it.index() as int).map_values(|p: (String, Todo)| p.1),
    {
        let (_, todo) = pair;
        r.push(todo);
    }
    r
}

/// Identifiers of the complete tasks, in order.
pub open spec fn completed_ids(s: Seq<Todo>) -> Seq<Seq<char>>
    decreases s.len(),
{
    if s.len() == 0 {
        seq![]
    } else {
        let rest = completed_ids(s.drop_last());
        if s.last()@.completed {
            rest.push(s.last()@.id)
        } else {
            rest
        }
    }
}

/// The identifiers of the complete tasks, in order: the tasks that deleting
/// all completed tasks removes from the store.
pub fn delete_completed(todos: &Vec<Todo>) -> (r: Vec<String>)
    ensures
        r@.map_values(|s: String| s@) == completed_ids(todos@),
{
    let mut ids: Vec<String> = Vec::new();
    let mut i: usize = 0;
    while i < todos.len()
        invariant
            i <= todos@.len(),
            ids@.map_values(|s: String| s@) == completed_ids(todos@.take(i as int)),
        decreases todos@.len() - i,
    {
        assert(todos@.take(i as int + 1).drop_last() == todos@.take(i as int));
        if todos[i].is_complete() {
            let ghost before = ids@;
            ids.push(todos[i].get_id().to_owned());
            assert(ids@.map_values(|s: String| s@) =~= before.map_values(|s: String| s@).push(
                todos@[i as int]@.id,
            ));
        }
        i = i + 1;
    }
    assert(todos@.take(todos@.len() as int) == todos@);
    ids
}

/// `None` for the empty text, the text itself otherwise.
pub fn convert_empty_str_option(s: &str) -> (r: Option<&str>)
    ensures
        r is None <==> s@.len() == 0,
        r matches Some(t) ==> t@ == s@,
{
    if s.is_empty() {
        None
    } else {
        Some(s)
    }
}

/// The due date a form's due-date text gives a task made on day `today`:
/// none for an empty text or one that names no date.
pub open spec fn form_due(text: Seq<char>, today: int) -> Option<int> {
    if text.len() == 0 {
        None
    } else {
        due_from(due_date_of(text, today))
    }
}

/// The task that the add form makes from its three fields, or `None` when the
/// title is empty: an empty title leaves the form without a change.
pub fn add_todo(title: &str, due_text: &str, priority: u32) -> (r: Option<Todo>)
    requires
        title@.len() > 0 ==> priority <= MAXPRIORITY,
    ensures
        r is None <==> title@.len() == 0,
        r matches Some(t) ==> {
            &&& t@.title == title@
            &&& t@.priority == priority
            &&& !t@.completed
            &&& t@.progress == Progress::Zero
            &&& t@.id.len() == 36
            &&& due_day(t@.due) == form_due(due_text@, t@.created.date@)
        },
{
    if title.is_empty() {
        return None;
    }
    let due_date = convert_empty_str_option(due_text);
    Some(Todo::new(title, priority, due_date))
}

/// The due date a form's due-date text names on day `today`.
fn read_form_due(due_text: &str, today: MyDate) -> (r: Option<MyDate>)
    ensures
        due_day(r) == form_due(due_text@, today@),
{
    match convert_empty_str_option(due_text) {
        None => None,
        Some(text) => match parse_due_date(text, today) {
            Ok(date) => Some(date),
            Err(_) => None,
        },
    }
}

/// The task that the edit form makes from its three fields on day `today`:
/// `todo` with the new title, priority and due date, keeping its identifier,
/// creation moment, completion and progress. `None` when the title is empty:
/// an empty title leaves the form without a change.
pub fn edit_todo(todo: &Todo, title: &str, due_text: &str, priority: u32, today: MyDate) -> (r:
    Option<Todo>)
    requires
        title@.len() > 0 ==> priority <= MAXPRIORITY,
    ensures
        r is None <==> title@.len() == 0,
        r matches Some(t) ==> {
            &&& t@.id == todo@.id
            &&& t@.title == title@
            &&& t@.priority == priority
            &&& t@.created == todo@.created
            &&& t@.completed == todo@.completed
            &&& t@.progress == todo@.progress
            &&& due_day(t@.due) == form_due(due_text@, today@)
        },
{
    if title.is_empty() {
        return None;
    }
    let due = read_form_due(due_text, today);
    Some(todo.edited(title, priority, due))
}

/// Where the session stands between two screens: the cursor row and the
/// order of the list.
#[derive(Clone, Copy, Debug, PartialEq, Eq, Structural)]
pub struct Session {
    pub pos: usize,
    pub sorting: SortingMethod,
}

/// What the session asks of the store and the terminal after an action.
#[derive(Debug)]
pub enum Effect {
    /// Nothing to do but show the list again.
    Nothing,
    /// Open the add form.
    Add,
    /// Open the edit form on the task at this row.
    Edit(usize),
    /// Save the given task under its identifier.
    Update(Todo),
    /// Remove the task with this identifier.
    Delete(String),
    /// Remove the tasks with these identifiers.
    DeleteMany(Vec<String>),
    /// Write the list to the markdown file.
    Export,
}

/// A task after one of the single-field actions.
pub open spec fn updated(action: Action, t: TodoView) -> TodoView {
    match action {
        Action::ToggleRead => TodoView { completed: !t.completed, ..t },
        Action::IncreasePriority => TodoView { priority: priority_up(t.priority), ..t },
        Action::DecreasePriority => TodoView { priority: priority_down(t.priority), ..t },
        Action::IncreaseProgress => TodoView { progress: t.progress.next_up(), ..t },
        Action::DecreaseProgress => TodoView { progress: t.progress.next_down(), ..t },
        _ => t,
    }
}

/// The actions that change one field of one task.
pub open spec fn is_single_field(action: Action) -> bool {
    ||| action == Action::ToggleRead
    ||| action == Action::IncreasePriority
    ||| action == Action::DecreasePriority
    ||| action == Action::IncreaseProgress
    ||| action == Action::DecreaseProgress
}

/// The session's answer to an action resolved on row `pos` of the displayed
/// (sorted) list `todos`. The cursor stays on `pos`; a sort action changes the
/// order. An action on one task only applies where `pos` is a row of the
/// list; deleting the completed tasks only where the list is not empty.
pub fn apply_action(session: Session, todos: &Vec<Todo>, pos: usize, action: Action) -> (r: (
    Session,
    Effect,
))
    ensures
        r.0.pos == pos,
        r.0.sorting == match action {
            Action::Sort(m) => m,
            _ => session.sorting,
        },
        is_single_field(action) ==> if pos < todos@.len() {
            r.1 matches Effect::Update(t) && t@ == updated(action, todos@[pos as int]@)
        } else {
            r.1 is Nothing
        },
        action == Action::Delete ==> if pos < todos@.len() {
            r.1 matches Effect::Delete(id) && id@ == todos@[pos as int]@.id
        } else {
            r.1 is Nothing
        },
        action == Action::Edit ==> if pos < todos@.len() {
            r.1 == Effect::Edit(pos)
        } else {
            r.1 is Nothing
        },
        action == Action::DeleteCompleted ==> if todos@.len() > 0 {
            r.1 matches Effect::DeleteMany(ids) && ids@.map_values(|s: String| s@)
                == completed_ids(todos@)
        } else {
            r.1 is Nothing
        },
        action == Action::Add ==> r.1 is Add,
        action == Action::Export ==> r.1 is Export,
        action == Action::Reload ==> r.1 is Nothing,
        action is Sort ==> r.1 is Nothing,
{
    let next = Session {
        pos,
        sorting: match action {
            Action::Sort(m) => m,
            _ => session.sorting,
        },
    };
    let effect = match action {
        Action::Add => Effect::Add,
        Action::Edit => if pos < todos.len() {
            Effect::Edit(pos)
        } else {
            Effect::Nothing
        },
        Action::ToggleRead | Action::IncreasePriority | Action::DecreasePriority
        | Action::IncreaseProgress | Action::DecreaseProgress => {
            if pos < todos.len() {
                let mut todo = todos[pos].duplicate();
                match action {
                    Action::ToggleRead => todo.toggle_read(),
                    Action::IncreasePriority => todo.increase_priority(),
                    Action::DecreasePriority => todo.decrease_priority(),
                    Action::IncreaseProgress => todo.increase_progress(),
                    _ => todo.decrease_progress(),
                }
                Effect::Update(todo)
            } else {
                Effect::Nothing
            }
        },
        Action::Delete => if pos < todos.len() {
            Effect::Delete(todos[pos].get_id().to_owned())
        } else {
            Effect::Nothing
        },
        Action::DeleteCompleted => if todos.len() > 0 {
            Effect::DeleteMany(delete_completed(todos))
        } else {
            Effect::Nothing
        },
        Action::Sort(_) => Effect::Nothing,
        Action::Export => Effect::Export,
        Action::Reload => Effect::Nothing,
    };
    (next, effect)
}

/// The sorting method a configured name selects: "priority", "created", and
/// due date for any other name.
pub open spec fn method_named(name: Seq<char>) -> SortingMethod {
    if name == "priority"@ {
        SortingMethod::Priority
    } else if name == "created"@ {
        SortingMethod::Created
    } else {
        SortingMethod::Due
    }
}

/// Reads the configured default sorting method.
pub fn sorting_method_from_name(name: &str) -> (r: SortingMethod)
    ensures
        r == method_named(name@),
{
    if same_text(name, "priority") {
        SortingMethod::Priority
    } else if same_text(name, "created") {
        SortingMethod::Created
    } else {
        SortingMethod::Due
    }
}

/// Reads a configured switch: on only for the text "true".
pub fn flag_from_text(text: &str) -> (r: bool)
    ensures
        r == (text@ == "true"@),
{
    same_text(text, "true")
}

} // verus!
