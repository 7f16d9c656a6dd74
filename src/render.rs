use vstd::prelude::*;

use crate::model::{MyDate, Progress, Todo, TodoView};

verus! {

/// The priority symbol: `_` for 0, else one `!` per level.
pub open spec fn priority_symbol(p: int) -> Seq<char> {
    if p == 0 {
        seq!['_']
    } else {
        Seq::new(p as nat, |i: int| '!')
    }
}

/// The eight-cell bar of a progress level between brackets: two cells per
/// quarter.
pub open spec fn level_bar(p: Progress) -> Seq<char> {
    match p {
        Progress::Zero => "[        ]"@,
        Progress::Quarter => "[##      ]"@,
        Progress::Half => "[####    ]"@,
        Progress::ThreeQuarter => "[######  ]"@,
        Progress::Full => "[########]"@,
    }
}

/// The progress bar shown for a task: full for a complete task, else the bar
/// of its level.
pub open spec fn progress_bar(t: TodoView) -> Seq<char> {
    if t.completed {
        level_bar(Progress::Full)
    } else {
        level_bar(t.progress)
    }
}

/// Each level has its own bar, ten characters long.
pub proof fn lemma_level_bar(p: Progress, q: Progress)
    ensures
        level_bar(p).len() == 10,
        level_bar(p) == level_bar(q) ==> p == q,
{
    reveal_strlit("[########]");
    reveal_strlit("[        ]");
    reveal_strlit("[##      ]");
    reveal_strlit("[####    ]");
    reveal_strlit("[######  ]");
    if level_bar(p) == level_bar(q) && p != q {
        assert(level_bar(p)[1] == level_bar(q)[1]);
        assert(level_bar(p)[3] == level_bar(q)[3]);
        assert(level_bar(p)[5] == level_bar(q)[5]);
        assert(level_bar(p)[7] == level_bar(q)[7]);
    }
}

/// The bar of a progress level.
pub fn get_level_str(p: &Progress) -> (r: String)
    ensures
        r@ == level_bar(*p),
{
    let bar = match p {
        Progress::Zero => "[        ]",
        Progress::Quarter => "[##      ]",
        Progress::Half => "[####    ]",
        Progress::ThreeQuarter => "[######  ]",
        Progress::Full => "[########]",
    };
    String::from_str(bar)
}

/// Converts a priority level to its symbol.
pub fn get_priority_symbol(p: u32) -> (r: String)
    ensures
        r@ == priority_symbol(p as int),
{
    if p == 0 {
        proof {
            reveal_strlit("_");
        }
        let r = String::from_str("_");
        assert(r@ =~= seq!['_']);
        return r;
    }
    proof {
        reveal_strlit("!");
    }
    let mut r = String::new();
    let mut i: u32 = 0;
    while i < p
        invariant
            i <= p,
            r@ =~= Seq::new(i as nat, |k: int| '!'),
        decreases p - i,
    {
        let ghost before = r@;
        proof {
            reveal_strlit("!");
        }
        r.append("!");
        assert(r@ =~= before + seq!['!']);
        i = i + 1;
        assert(r@ =~= Seq::new(i as nat, |k: int| '!'));
    }
    r
}

/// The progress bar of a task.
pub fn get_progress_str(todo: &Todo) -> (r: String)
    ensures
        r@ == progress_bar(todo@),
        r@.len() == 10,
{
    proof {
        reveal_strlit("[########]");
        reveal_strlit("[        ]");
        reveal_strlit("[##      ]");
        reveal_strlit("[####    ]");
        reveal_strlit("[######  ]");
    }
    if todo.is_complete() {
        get_level_str(&Progress::Full)
    } else {
        get_level_str(todo.get_progress())
    }
}

/// How a due date is shown, relative to today.
#[derive(Clone, Copy, Debug, PartialEq, Eq, Structural)]
pub enum DueTone {
    /// Due later than today.
    Future,
    /// Due today.
    Today,
    /// Due before today.
    Past,
    /// The task is complete: shown neutral whatever the date.
    Muted,
}

/// The tone of a task's due date seen on day `today`, `None` without a due
/// date.
pub open spec fn due_tone_of(t: TodoView, today: int) -> Option<DueTone> {
    match t.due {
        None => None,
        Some(d) => Some(
            if t.completed {
                DueTone::Muted
            } else if d@ > today {
                DueTone::Future
            } else if d@ == today {
                DueTone::Today
            } else {
                DueTone::Past
            },
        ),
    }
}

/// Chooses how a task's due date is shown on day `today`.
pub fn get_due_date(todo: &Todo, today: MyDate) -> (r: Option<DueTone>)
    ensures
        r == due_tone_of(todo@, today@),
{
    match todo.get_due_date() {
        None => None,
        Some(due) => {
            if todo.is_complete() {
                return Some(DueTone::Muted);
            }
            let d = due.get_0();
            let t = today.get_0();
            if d > t {
                Some(DueTone::Future)
            } else if d == t {
                Some(DueTone::Today)
            } else {
                Some(DueTone::Past)
            }
        },
    }
}

} // verus!
