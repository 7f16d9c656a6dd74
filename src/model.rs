use vstd::prelude::*;

use crate::date_utils::{due_date_of, now, parse_due_date, DateError};
use uuid::Uuid;

verus! {

/// Highest priority level a task can have (inclusive).
pub const MAXPRIORITY: u32 = 3;

/// Day number of the earliest calendar date the date library can represent
/// (January 1, 262144 BCE), counting January 1 of year 1 as day 1.
pub const MIN_DAY: i32 = -95746129;

/// Day number of the latest calendar date the date library can represent
/// (December 31, 262142 CE).
pub const MAX_DAY: i32 = 95745399;

/// How far a task has progressed, in five steps.
#[derive(Clone, Copy, Debug, PartialEq, Eq, Structural)]
pub enum Progress {
    Zero,
    Quarter,
    Half,
    ThreeQuarter,
    Full,
}

impl Progress {
    /// The step's rank, from 0 (`Zero`) to 4 (`Full`).
    pub open spec fn rank(self) -> int {
        match self {
            Progress::Zero => 0,
            Progress::Quarter => 1,
            Progress::Half => 2,
            Progress::ThreeQuarter => 3,
            Progress::Full => 4,
        }
    }

    /// One step further, staying at `Full`.
    pub open spec fn next_up(self) -> Progress {
        match self {
            Progress::Zero => Progress::Quarter,
            Progress::Quarter => Progress::Half,
            Progress::Half => Progress::ThreeQuarter,
            Progress::ThreeQuarter => Progress::Full,
            Progress::Full => Progress::Full,
        }
    }

    /// One step back, staying at `Zero`.
    pub open spec fn next_down(self) -> Progress {
        match self {
            Progress::Zero => Progress::Zero,
            Progress::Quarter => Progress::Zero,
            Progress::Half => Progress::Quarter,
            Progress::ThreeQuarter => Progress::Half,
            Progress::Full => Progress::ThreeQuarter,
        }
    }

    pub fn up(&self) -> (r: Progress)
        ensures
            r == self.next_up(),
    {
        match *self {
            Progress::Zero => Progress::Quarter,
            Progress::Quarter => Progress::Half,
            Progress::Half => Progress::ThreeQuarter,
            Progress::ThreeQuarter => Progress::Full,
            Progress::Full => Progress::Full,
        }
    }

    pub fn down(&self) -> (r: Progress)
        ensures
            r == self.next_down(),
    {
        match *self {
            Progress::Zero => Progress::Zero,
            Progress::Quarter => Progress::Zero,
            Progress::Half => Progress::Quarter,
            Progress::ThreeQuarter => Progress::Half,
            Progress::Full => Progress::ThreeQuarter,
        }
    }
}

/// `up` and `down` saturate at the two ends, and each undoes the other away
/// from the end it saturates at.
pub proof fn lemma_progress_steps(level: Progress)
    ensures
        Progress::Full.next_up() == Progress::Full,
        Progress::Zero.next_down() == Progress::Zero,
        level != Progress::Full ==> level.next_up().next_down() == level,
        level != Progress::Zero ==> level.next_down().next_up() == level,
        level.next_up().rank() == if level.rank() == 4 { 4 } else { level.rank() + 1 },
        level.next_down().rank() == if level.rank() == 0 { 0 } else { level.rank() - 1 },
{
}

/// A calendar date, held as its day number: January 1 of year 1 is day 1,
/// and each later day counts one more.
#[derive(Clone, Copy, Debug, PartialEq, Eq, Structural)]
pub struct MyDate {
    days: i32,
}

/// The day numbers that stand for a representable calendar date.
pub open spec fn day_in_range(days: int) -> bool {
    MIN_DAY <= days <= MAX_DAY
}

impl View for MyDate {
    type V = int;

    closed spec fn view(&self) -> int {
        self.days as int
    }
}

impl MyDate {
    #[verifier::type_invariant]
    closed spec fn inv(self) -> bool {
        day_in_range(self.days as int)
    }

    /// The date with the given day number, where that day is representable.
    pub fn from_days(days: i32) -> (r: Option<MyDate>)
        ensures
            r is Some <==> day_in_range(days as int),
            r matches Some(d) ==> d@ == days,
    {
        if MIN_DAY <= days && days <= MAX_DAY {
            Some(MyDate { days })
        } else {
            None
        }
    }

    pub(crate) fn new(days: i32) -> (r: MyDate)
        requires
            day_in_range(days as int),
        ensures
            r@ == days,
    {
        MyDate { days }
    }

    /// The day number.
    pub fn get_0(&self) -> (r: i32)
        ensures
            r == self@,
            day_in_range(r as int),
    {
        proof {
            use_type_invariant(self);
        }
        self.days
    }
}

/// A moment of local time: a date, the seconds since its midnight, and the
/// nanoseconds within that second.
#[derive(Clone, Copy, Debug, PartialEq, Eq, Structural)]
pub struct MyDateTime {
    pub date: MyDate,
    pub secs: u32,
    pub nanos: u32,
}

/// A task, as it is stored and shown.
#[derive(Debug)]
pub struct Todo {
    id: String,
    title: String,
    priority: u32,
    created: MyDateTime,
    due: Option<MyDate>,
    completed: bool,
    progress: Progress,
}

/// What a task holds, as mathematical values.
pub struct TodoView {
    pub id: Seq<char>,
    pub title: Seq<char>,
    pub priority: int,
    pub created: MyDateTime,
    pub due: Option<MyDate>,
    pub completed: bool,
    pub progress: Progress,
}

impl View for Todo {
    type V = TodoView;

    closed spec fn view(&self) -> TodoView {
        TodoView {
            id: self.id@,
            title: self.title@,
            priority: self.priority as int,
            created: self.created,
            due: self.due,
            completed: self.completed,
            progress: self.progress,
        }
    }
}

/// Priority after one step up: one more, at most `MAXPRIORITY`.
pub open spec fn priority_up(p: int) -> int {
    if p + 1 < MAXPRIORITY { p + 1 } else { MAXPRIORITY as int }
}

/// Priority after one step down: one less, at least 0.
pub open spec fn priority_down(p: int) -> int {
    if p - 1 > 0 { p - 1 } else { 0 }
}

/// Priority after a run of steps, `true` for a step up and `false` for a
/// step down.
pub open spec fn priority_after_steps(p: int, steps: Seq<bool>) -> int
    decreases steps.len(),
{
    if steps.len() == 0 {
        p
    } else {
        let next = if steps[0] {
            priority_up(p)
        } else {
            priority_down(p)
        };
        priority_after_steps(next, steps.drop_first())
    }
}

/// Raising and lowering a priority never leaves `[0, MAXPRIORITY]`: a step up
/// lands there from any priority, a step down never goes below 0, and any run
/// of steps from a priority in range stays in range.
pub proof fn lemma_priority_stays_in_range(p: int, steps: Seq<bool>)
    requires
        0 <= p <= MAXPRIORITY,
    ensures
        forall|q: int| q >= 0 ==> 0 <= #[trigger] priority_up(q) <= MAXPRIORITY,
        forall|q: int| #[trigger] priority_down(q) >= 0,
        0 <= priority_up(p) <= MAXPRIORITY,
        0 <= priority_down(p) <= MAXPRIORITY,
        0 <= priority_after_steps(p, steps) <= MAXPRIORITY,
    decreases steps.len(),
{
    if steps.len() > 0 {
        let next = if steps[0] {
            priority_up(p)
        } else {
            priority_down(p)
        };
        lemma_priority_stays_in_range(next, steps.drop_first());
    }
}

/// A character of a written identifier: a lowercase hexadecimal digit or `-`.
pub open spec fn is_id_char(c: char) -> bool {
    ('0' <= c && c <= '9') || ('a' <= c && c <= 'f') || c == '-'
}

/// Relies on uuid's `Uuid::now_v7` and its `Display`, which writes the
/// hyphenated form: 36 characters, lowercase hexadecimal digits and `-`.
#[verifier::external_body]
fn new_id() -> (r: String)
    ensures
        r@.len() == 36,
        forall|i: int| 0 <= i < r@.len() ==> is_id_char(#[trigger] r@[i]),
{
    Uuid::now_v7().to_string()
}

/// The due date a task gets from the outcome of reading its due-date text:
/// the date where the text names one, none otherwise.
pub open spec fn due_from(outcome: Result<int, DateError>) -> Option<int> {
    match outcome {
        Ok(n) => Some(n),
        Err(_) => None,
    }
}

/// A due date as its day number.
pub open spec fn due_day(due: Option<MyDate>) -> Option<int> {
    match due {
        Some(d) => Some(d@),
        None => None,
    }
}

impl Todo {
    #[verifier::type_invariant]
    closed spec fn inv(self) -> bool {
        self.priority <= MAXPRIORITY
    }

    /// A new incomplete task with no progress, a fresh identifier and the
    /// current moment as its creation; its due date is what the due-date text
    /// names on the day of creation, none where there is no text or it names
    /// no date.
    pub fn new(title: &str, priority: u32, due_date_opt: Option<&str>) -> (r: Todo)
        requires
            priority <= MAXPRIORITY,
        ensures
            r@.title == title@,
            r@.priority == priority,
            !r@.completed,
            r@.progress == Progress::Zero,
            r@.id.len() == 36,
            forall|i: int| 0 <= i < r@.id.len() ==> is_id_char(#[trigger] r@.id[i]),
            due_day(r@.due) == match due_date_opt {
                None => None,
                Some(s) => due_from(due_date_of(s@, r@.created.date@)),
            },
    {
        let id = new_id();
        let created = now();
        let due = match due_date_opt {
            None => None,
            Some(due_date) => match parse_due_date(due_date, created.date) {
                Ok(date) => Some(date),
                Err(_) => None,
            },
        };
        Todo {
            id,
            title: title.to_owned(),
            priority,
            created,
            due,
            completed: false,
            progress: Progress::Zero,
        }
    }

    /// The task with a new title, priority and due date, keeping its
    /// identifier, creation moment, completion and progress.
    pub fn edited(&self, title: &str, priority: u32, due: Option<MyDate>) -> (r: Todo)
        requires
            priority <= MAXPRIORITY,
        ensures
            r@ == (TodoView { title: title@, priority: priority as int, due, ..self@ }),
    {
        Todo {
            id: self.id.clone(),
            title: title.to_owned(),
            priority,
            created: self.created,
            due,
            completed: self.completed,
            progress: self.progress,
        }
    }

    /// A task made of the given values, such as one read back from storage.
    pub fn from_parts(
        id: String,
        title: String,
        priority: u32,
        created: MyDateTime,
        due: Option<MyDate>,
        completed: bool,
        progress: Progress,
    ) -> (r: Todo)
        requires
            priority <= MAXPRIORITY,
        ensures
            r@ == (TodoView {
                id: id@,
                title: title@,
                priority: priority as int,
                created,
                due,
                completed,
                progress,
            }),
    {
        Todo { id, title, priority, created, due, completed, progress }
    }

    /// A copy of the task.
    pub fn duplicate(&self) -> (r: Todo)
        ensures
            r@ == self@,
    {
        proof {
            use_type_invariant(self);
        }
        Todo {
            id: self.id.clone(),
            title: self.title.clone(),
            priority: self.priority,
            created: self.created,
            due: self.due,
            completed: self.completed,
            progress: self.progress,
        }
    }

    pub fn is_complete(&self) -> (r: bool)
        ensures
            r == self@.completed,
    {
        self.completed
    }

    pub fn get_id(&self) -> (r: &str)
        ensures
            r@ == self@.id,
    {
        self.id.as_str()
    }

    pub fn get_title(&self) -> (r: &str)
        ensures
            r@ == self@.title,
    {
        self.title.as_str()
    }

    pub fn get_due_date(&self) -> (r: &Option<MyDate>)
        ensures
            *r == self@.due,
    {
        &self.due
    }

    pub fn get_created_date(&self) -> (r: &MyDateTime)
        ensures
            *r == self@.created,
    {
        &self.created
    }

    pub fn get_priority(&self) -> (r: u32)
        ensures
            r == self@.priority,
            r <= MAXPRIORITY,
    {
        proof {
            use_type_invariant(self);
        }
        self.priority
    }

    pub fn get_progress(&self) -> (r: &Progress)
        ensures
            *r == self@.progress,
    {
        &self.progress
    }

    pub fn set_id(&mut self, id: &str)
        ensures
            final(self)@ == (TodoView { id: id@, ..old(self)@ }),
    {
        proof {
            use_type_invariant(&*self);
        }
        self.id = id.to_owned();
    }

    pub fn toggle_read(&mut self)
        ensures
            final(self)@ == (TodoView { completed: !old(self)@.completed, ..old(self)@ }),
    {
        proof {
            use_type_invariant(&*self);
        }
        self.completed = !self.completed;
    }

    pub fn increase_priority(&mut self)
        ensures
            final(self)@ == (TodoView { priority: priority_up(old(self)@.priority), ..old(self)@ }),
    {
        proof {
            use_type_invariant(&*self);
        }
        if self.priority + 1 < MAXPRIORITY {
            self.priority = self.priority + 1;
        } else {
            self.priority = MAXPRIORITY;
        }
    }

    pub fn decrease_priority(&mut self)
        ensures
            final(self)@ == (TodoView { priority: priority_down(old(self)@.priority), ..old(self)@ }),
    {
        proof {
            use_type_invariant(&*self);
        }
        if self.priority > 1 {
            self.priority = self.priority - 1;
        } else {
            self.priority = 0;
        }
    }

    pub fn increase_progress(&mut self)
        ensures
            final(self)@ == (TodoView { progress: old(self)@.progress.next_up(), ..old(self)@ }),
    {
        proof {
            use_type_invariant(&*self);
        }
        self.progress = self.progress.up();
    }

    pub fn decrease_progress(&mut self)
        ensures
            final(self)@ == (TodoView { progress: old(self)@.progress.next_down(), ..old(self)@ }),
    {
        proof {
            use_type_invariant(&*self);
        }
        self.progress = self.progress.down();
    }
}

/// The order in which the list shows the tasks.
#[derive(Clone, Copy, Debug, PartialEq, Eq, Structural)]
pub enum SortingMethod {
    Priority,
    Due,
    Created,
}

/// A command for the session, resolved from a key (after confirmation where
/// one is asked for).
#[derive(Clone, Copy, Debug, PartialEq, Eq, Structural)]
pub enum Action {
    ToggleRead,
    Delete,
    IncreasePriority,
    DecreasePriority,
    Reload,
    Sort(SortingMethod),
    IncreaseProgress,
    DecreaseProgress,
    Edit,
    Add,
    Export,
    DeleteCompleted,
}

/// A menu command, as read from one key of the list screen.
#[derive(Clone, Copy, Debug, PartialEq, Eq, Structural)]
pub enum KeyEvent {
    Back,
    Sort,
    NavigateUp,
    NavigateDown,
    ToggleRead,
    Delete,
    IncreasePriority,
    DecreasePriority,
    IncreaseProgress,
    DecreaseProgress,
    Edit,
    Add,
    Export,
    DeleteCompleted,
}

} // verus!
