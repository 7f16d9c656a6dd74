use vstd::prelude::*;

use crate::date_utils::{date_text, format_date, is_date_char};
use crate::model::{MyDate, Todo, TodoView};
use crate::model::MyDateTime;
use crate::render::{get_level_str, get_priority_symbol, lemma_level_bar, level_bar, priority_symbol};
use crate::text::{lemma_natural_text_digits, lemma_natural_text_injective, natural_text, push_natural};

verus! {

/// The checkbox of a markdown task line.
pub open spec fn checkbox(completed: bool) -> Seq<char> {
    if completed {
        "[x]"@
    } else {
        "[ ]"@
    }
}

/// The due-date field of a markdown task line: the date, or `never`.
pub open spec fn due_field(due: Option<MyDate>) -> Seq<char> {
    match due {
        Some(d) => date_text(d@),
        None => "never"@,
    }
}

/// The creation moment as written in a markdown task line: the date, then
/// the seconds since midnight and the nanoseconds, as in
/// `01-03-2024 3600s 5ns`.
pub open spec fn created_text(c: MyDateTime) -> Seq<char> {
    date_text(c.date@) + " "@ + natural_text(c.secs as nat) + "s "@ + natural_text(c.nanos as nat)
        + "ns"@
}

/// A markdown task line made of its fields' texts:
/// `- [x] (!!) title (due: 15-03-2024) [####    ] % 01-03-2024 3600s 5ns % id`.
pub open spec fn md_line_of(
    check: Seq<char>,
    symbol: Seq<char>,
    title: Seq<char>,
    due: Seq<char>,
    bar: Seq<char>,
    created: Seq<char>,
    id: Seq<char>,
) -> Seq<char> {
    "- "@ + check + " ("@ + symbol + ") "@ + title + " (due: "@ + due + ") "@ + bar + " % "@
        + created + " % "@ + id + "\n"@
}

/// The markdown line of a task: its progress shows as the bar of its level,
/// and its creation as the full moment.
pub open spec fn md_line(t: TodoView) -> Seq<char> {
    md_line_of(
        checkbox(t.completed),
        priority_symbol(t.priority),
        t.title,
        due_field(t.due),
        level_bar(t.progress),
        created_text(t.created),
        t.id,
    )
}

/// The markdown text of a list of tasks: their lines, in order.
pub open spec fn md_text(s: Seq<Todo>) -> Seq<char>
    decreases s.len(),
{
    if s.len() == 0 {
        seq![]
    } else {
        md_text(s.drop_last()) + md_line(s.last()@)
    }
}

/// Every character of `s` is one the date format writes.
pub open spec fn all_date_chars(s: Seq<char>) -> bool {
    forall|i: int| 0 <= i < s.len() ==> is_date_char(#[trigger] s[i])
}

/// The date texts of a task's line are made of the characters the date
/// format writes.
pub open spec fn date_texts_plain(t: TodoView) -> bool {
    &&& all_date_chars(date_text(t.created.date@))
    &&& t.due matches Some(d) ==> all_date_chars(date_text(d@))
}

/// Converts a task to its markdown line.
pub fn convert_todo_str(todo: &Todo) -> (r: String)
    ensures
        r@ == md_line(todo@),
        date_texts_plain(todo@),
{
    let mut line = String::from_str("- ");
    line.append(if todo.is_complete() {
        "[x]"
    } else {
        "[ ]"
    });
    line.append(" (");
    let symbol = get_priority_symbol(todo.get_priority());
    line.append(symbol.as_str());
    line.append(") ");
    line.append(todo.get_title());
    line.append(" (due: ");
    match todo.get_due_date() {
        Some(date) => {
            let text = format_date(date.get_0());
            line.append(text.as_str());
        },
        None => line.append("never"),
    }
    line.append(") ");
    let bar = get_level_str(todo.get_progress());
    line.append(bar.as_str());
    line.append(" % ");
    let moment = todo.get_created_date();
    let created = format_date(moment.date.get_0());
    line.append(created.as_str());
    line.append(" ");
    push_natural(&mut line, moment.secs);
    line.append("s ");
    push_natural(&mut line, moment.nanos);
    line.append("ns");
    line.append(" % ");
    line.append(todo.get_id());
    line.append("\n");
    assert(line@ =~= md_line(todo@));
    line
}

/// The markdown text of a list of tasks, one line each.
pub fn todos_to_md(todos: &Vec<Todo>) -> (r: String)
    ensures
        r@ == md_text(todos@),
{
    let mut text = String::new();
    let mut i: usize = 0;
    while i < todos.len()
        invariant
            i <= todos@.len(),
            text@ == md_text(todos@.take(i as int)),
        decreases todos@.len() - i,
    {
        assert(todos@.take(i as int + 1).drop_last() == todos@.take(i as int));
        let line = convert_todo_str(&todos[i]);
        text.append(line.as_str());
        i = i + 1;
    }
    assert(todos@.take(todos@.len() as int) == todos@);
    text
}

/// No character of `s` is `c`.
pub open spec fn lacks(s: Seq<char>, c: char) -> bool {
    forall|i: int| 0 <= i < s.len() ==> #[trigger] s[i] != c
}

proof fn lemma_cut_at_last(x1: Seq<char>, y1: Seq<char>, x2: Seq<char>, y2: Seq<char>, c: char)
    requires
        x1 + seq![c] + y1 == x2 + seq![c] + y2,
        lacks(y1, c),
        lacks(y2, c),
    ensures
        x1 == x2,
        y1 == y2,
{
    let s = x1 + seq![c] + y1;
    let t = x2 + seq![c] + y2;
    assert(s.len() == t.len());
    assert(s.len() == x1.len() + 1 + y1.len());
    assert(t.len() == x2.len() + 1 + y2.len());
    if y1.len() < y2.len() {
        let p = x1.len() as int;
        assert(s[p] == c);
        assert(x2.len() < p < t.len());
        assert(t == x2 + (seq![c] + y2));
        assert(t[p] == (seq![c] + y2)[p - x2.len()]);
        assert(t[p] == y2[p - x2.len() - 1]);
    } else if y2.len() < y1.len() {
        let p = x2.len() as int;
        assert(t[p] == c);
        assert(x1.len() < p < s.len());
        assert(s == x1 + (seq![c] + y1));
        assert(s[p] == (seq![c] + y1)[p - x1.len()]);
        assert(s[p] == y1[p - x1.len() - 1]);
    }
    assert(x1 =~= s.subrange(0, x1.len() as int));
    assert(x2 =~= t.subrange(0, x2.len() as int));
    assert(y1 =~= s.subrange(x1.len() as int + 1, s.len() as int));
    assert(y2 =~= t.subrange(x2.len() as int + 1, t.len() as int));
}

proof fn lemma_cut_at_first(x1: Seq<char>, y1: Seq<char>, x2: Seq<char>, y2: Seq<char>, c: char)
    requires
        x1 + seq![c] + y1 == x2 + seq![c] + y2,
        lacks(x1, c),
        lacks(x2, c),
    ensures
        x1 == x2,
        y1 == y2,
{
    let s = x1 + seq![c] + y1;
    let t = x2 + seq![c] + y2;
    if x1.len() < x2.len() {
        let p = x1.len() as int;
        assert(s[p] == c);
        assert(t[p] == x2[p]);
    } else if x2.len() < x1.len() {
        let p = x2.len() as int;
        assert(t[p] == c);
        assert(s[p] == x1[p]);
    }
    assert(x1 =~= s.subrange(0, x1.len() as int));
    assert(x2 =~= t.subrange(0, x2.len() as int));
    assert(y1 =~= s.subrange(x1.len() as int + 1, s.len() as int));
    assert(y2 =~= t.subrange(x2.len() as int + 1, t.len() as int));
}

proof fn lemma_cut_at_length(x1: Seq<char>, y1: Seq<char>, x2: Seq<char>, y2: Seq<char>)
    requires
        x1 + y1 == x2 + y2,
        x1.len() == x2.len() || y1.len() == y2.len(),
    ensures
        x1 == x2,
        y1 == y2,
{
    let s = x1 + y1;
    assert(x1 =~= s.subrange(0, x1.len() as int));
    assert(x2 =~= (x2 + y2).subrange(0, x2.len() as int));
    assert(y1 =~= s.subrange(x1.len() as int, s.len() as int));
    assert(y2 =~= (x2 + y2).subrange(x2.len() as int, s.len() as int));
}

/// The start of a task's line, up to its title.
spec fn line_head(t: TodoView) -> Seq<char> {
    "- "@ + checkbox(t.completed) + " ("@ + priority_symbol(t.priority) + ") "@ + t.title
}

/// The start of a task's line, up to its due-date text.
spec fn line_front(t: TodoView) -> Seq<char> {
    line_head(t) + " (due:"@ + seq![' '] + due_field(t.due)
}

proof fn lemma_line_layout(t: TodoView)
    ensures
        md_line(t) =~= (line_front(t) + ") "@ + level_bar(t.progress) + seq![' ']) + seq!['%']
            + (seq![' '] + created_text(t.created) + seq![' ']) + seq!['%'] + (seq![' '] + t.id
            + "\n"@),
{
    reveal_strlit(" (due: ");
    reveal_strlit(" (due:");
    reveal_strlit(" % ");
}

proof fn lemma_inner(s: Seq<char>, a: char, b: Seq<char>, c: Seq<char>)
    requires
        s == seq![a] + b + c,
    ensures
        b == s.subrange(1, b.len() as int + 1),
{
    assert(b =~= s.subrange(1, b.len() as int + 1));
}

proof fn lemma_created_lacks(c: MyDateTime, x: char)
    requires
        all_date_chars(date_text(c.date@)),
        x == '%' || x == ' ',
    ensures
        x == '%' ==> lacks(created_text(c), x),
        lacks(date_text(c.date@), x),
        lacks(natural_text(c.secs as nat), x),
        lacks(natural_text(c.nanos as nat), x),
{
    reveal_strlit(" ");
    reveal_strlit("s ");
    reveal_strlit("ns");
    lemma_natural_text_digits(c.secs as nat);
    lemma_natural_text_digits(c.nanos as nat);
    let d = date_text(c.date@);
    let a = natural_text(c.secs as nat);
    let b = natural_text(c.nanos as nat);
    assert(lacks(d, x));
    assert(lacks(a, x));
    assert(lacks(b, x));
    if x == '%' {
        let whole = created_text(c);
        assert forall|i: int| 0 <= i < whole.len() implies #[trigger] whole[i] != x by {
            if i < d.len() {
                assert(whole[i] == d[i]);
            } else if i < d.len() + 1 {
            } else if i < d.len() + 1 + a.len() {
                assert(whole[i] == a[i - d.len() - 1]);
            } else if i < d.len() + 3 + a.len() {
            } else if i < d.len() + 3 + a.len() + b.len() {
                assert(whole[i] == b[i - d.len() - 3 - a.len()]);
            }
        }
    }
}

/// Equal creation texts come from the same seconds and nanoseconds and the
/// same date text.
proof fn lemma_created_readable(c1: MyDateTime, c2: MyDateTime)
    requires
        all_date_chars(date_text(c1.date@)),
        all_date_chars(date_text(c2.date@)),
        created_text(c1) == created_text(c2),
    ensures
        date_text(c1.date@) == date_text(c2.date@),
        c1.secs == c2.secs,
        c1.nanos == c2.nanos,
{
    reveal_strlit(" ");
    reveal_strlit("s ");
    reveal_strlit("ns");
    lemma_created_lacks(c1, ' ');
    lemma_created_lacks(c2, ' ');
    let d1 = date_text(c1.date@);
    let d2 = date_text(c2.date@);
    let a1 = natural_text(c1.secs as nat);
    let a2 = natural_text(c2.secs as nat);
    let b1 = natural_text(c1.nanos as nat);
    let b2 = natural_text(c2.nanos as nat);
    let r1 = (a1 + seq!['s']) + seq![' '] + (b1 + "ns"@);
    let r2 = (a2 + seq!['s']) + seq![' '] + (b2 + "ns"@);
    assert(created_text(c1) =~= d1 + seq![' '] + r1);
    assert(created_text(c2) =~= d2 + seq![' '] + r2);
    lemma_cut_at_first(d1, r1, d2, r2, ' ');
    assert(lacks(a1 + seq!['s'], ' '));
    assert(lacks(a2 + seq!['s'], ' '));
    lemma_cut_at_first(a1 + seq!['s'], b1 + "ns"@, a2 + seq!['s'], b2 + "ns"@, ' ');
    lemma_cut_at_length(a1, seq!['s'], a2, seq!['s']);
    lemma_cut_at_length(b1, "ns"@, b2, "ns"@);
    lemma_natural_text_injective(c1.secs as nat, c2.secs as nat);
    lemma_natural_text_injective(c1.nanos as nat, c2.nanos as nat);
}

/// Equal lines end alike: same identifier, creation moment text and
/// progress bar, and the same start up to the due-date text.
proof fn lemma_line_tail(t1: TodoView, t2: TodoView)
    requires
        date_texts_plain(t1),
        date_texts_plain(t2),
        lacks(t1.id, '%'),
        lacks(t2.id, '%'),
        md_line(t1) == md_line(t2),
    ensures
        t1.id == t2.id,
        created_text(t1.created) == created_text(t2.created),
        level_bar(t1.progress) == level_bar(t2.progress),
        line_front(t1) == line_front(t2),
{
    reveal_strlit("\n");
    reveal_strlit(") ");
    lemma_line_layout(t1);
    lemma_line_layout(t2);
    let k1 = created_text(t1.created);
    let k2 = created_text(t2.created);
    let b1 = level_bar(t1.progress);
    let b2 = level_bar(t2.progress);
    let tail1 = seq![' '] + t1.id + "\n"@;
    let tail2 = seq![' '] + t2.id + "\n"@;
    let mid1 = seq![' '] + k1 + seq![' '];
    let mid2 = seq![' '] + k2 + seq![' '];
    let bb1 = line_front(t1) + ") "@ + b1 + seq![' '];
    let bb2 = line_front(t2) + ") "@ + b2 + seq![' '];
    assert(lacks(tail1, '%'));
    assert(lacks(tail2, '%'));
    lemma_cut_at_last(bb1 + seq!['%'] + mid1, tail1, bb2 + seq!['%'] + mid2, tail2, '%');
    lemma_inner(tail1, ' ', t1.id, "\n"@);
    lemma_inner(tail2, ' ', t2.id, "\n"@);
    lemma_created_lacks(t1.created, '%');
    lemma_created_lacks(t2.created, '%');
    assert(lacks(mid1, '%'));
    assert(lacks(mid2, '%'));
    lemma_cut_at_last(bb1, mid1, bb2, mid2, '%');
    lemma_inner(mid1, ' ', k1, seq![' ']);
    lemma_inner(mid2, ' ', k2, seq![' ']);
    lemma_level_bar(t1.progress, t2.progress);
    lemma_level_bar(t2.progress, t1.progress);
    assert(bb1 =~= (line_front(t1) + ") "@) + (b1 + seq![' ']));
    assert(bb2 =~= (line_front(t2) + ") "@) + (b2 + seq![' ']));
    lemma_cut_at_length(line_front(t1) + ") "@, b1 + seq![' '], line_front(t2) + ") "@, b2 + seq![' ']);
    lemma_cut_at_length(b1, seq![' '], b2, seq![' ']);
    lemma_cut_at_length(line_front(t1), ") "@, line_front(t2), ") "@);
}
/// Equal starts up to the due-date text: same due-date text, same start up
/// to the title.
proof fn lemma_line_due(t1: TodoView, t2: TodoView)
    requires
        date_texts_plain(t1),
        date_texts_plain(t2),
        line_front(t1) == line_front(t2),
    ensures
        due_field(t1.due) == due_field(t2.due),
        line_head(t1) == line_head(t2),
{
    reveal_strlit("never");
    reveal_strlit(" (due:");
    let d1 = due_field(t1.due);
    let d2 = due_field(t2.due);
    let e1 = line_head(t1) + " (due:"@;
    let e2 = line_head(t2) + " (due:"@;
    let f1 = line_front(t1);
    let f2 = line_front(t2);
    if d1 == d2 {
    } else if t1.due is Some && t2.due is Some {
        assert(lacks(d1, ' '));
        assert(lacks(d2, ' '));
        lemma_cut_at_last(e1, d1, e2, d2, ' ');
    } else if t1.due is None {
        let last = f2.len() as int - 1;
        assert(f1[last] == 'r');
        if d2.len() > 0 {
            assert(f2[last] == d2[d2.len() as int - 1]);
        } else {
            assert(f2[last] == ' ');
        }
    } else {
        let last = f1.len() as int - 1;
        assert(f2[last] == 'r');
        if d1.len() > 0 {
            assert(f1[last] == d1[d1.len() as int - 1]);
        } else {
            assert(f1[last] == ' ');
        }
    }
    lemma_cut_at_length(e1 + seq![' '], d1, e2 + seq![' '], d2);
    lemma_cut_at_length(e1, seq![' '], e2, seq![' ']);
    lemma_cut_at_length(line_head(t1), " (due:"@, line_head(t2), " (due:"@);
}

/// Equal starts up to the title: same completion, priority and title.
proof fn lemma_line_head(t1: TodoView, t2: TodoView)
    requires
        0 <= t1.priority,
        0 <= t2.priority,
        line_head(t1) == line_head(t2),
    ensures
        t1.completed == t2.completed,
        t1.priority == t2.priority,
        t1.title == t2.title,
{
    reveal_strlit("- ");
    reveal_strlit(" (");
    reveal_strlit(") ");
    reveal_strlit("[x]");
    reveal_strlit("[ ]");
    let c1 = checkbox(t1.completed);
    let c2 = checkbox(t2.completed);
    let s1 = priority_symbol(t1.priority);
    let s2 = priority_symbol(t2.priority);
    let p1 = "- "@ + c1 + " ("@;
    let p2 = "- "@ + c2 + " ("@;
    let g1 = p1 + s1;
    let g2 = p2 + s2;
    assert(line_head(t1) =~= g1 + seq![')'] + (seq![' '] + t1.title));
    assert(line_head(t2) =~= g2 + seq![')'] + (seq![' '] + t2.title));
    assert(lacks(g1, ')'));
    assert(lacks(g2, ')'));
    lemma_cut_at_first(g1, seq![' '] + t1.title, g2, seq![' '] + t2.title, ')');
    lemma_inner(seq![' '] + t1.title, ' ', t1.title, seq![]);
    lemma_inner(seq![' '] + t2.title, ' ', t2.title, seq![]);
    assert(seq![' '] + t1.title =~= seq![' '] + t1.title + seq![]);
    assert(seq![' '] + t2.title =~= seq![' '] + t2.title + seq![]);
    lemma_cut_at_length(p1, s1, p2, s2);
    assert(c1[1] == p1[3]);
    assert(c2[1] == p2[3]);
    if t1.priority != t2.priority {
        if t1.priority == 0 {
            assert(s2[0] == '!');
        } else if t2.priority == 0 {
            assert(s1[0] == '!');
        }
    }
}

/// An exported line can be read back: two tasks whose markdown lines are
/// equal agree on completion, priority, title, due-date text, progress level,
/// creation moment (its date text, seconds and nanoseconds) and identifier. This holds where the date texts are as
/// the export writes them (see `convert_todo_str`) and identifiers hold no
/// `%`, as the identifiers the library makes do not.
pub proof fn lemma_md_line_readable(t1: TodoView, t2: TodoView)
    requires
        0 <= t1.priority,
        0 <= t2.priority,
        date_texts_plain(t1),
        date_texts_plain(t2),
        lacks(t1.id, '%'),
        lacks(t2.id, '%'),
        md_line(t1) == md_line(t2),
    ensures
        t1.completed == t2.completed,
        t1.priority == t2.priority,
        t1.title == t2.title,
        due_field(t1.due) == due_field(t2.due),
        t1.progress == t2.progress,
        date_text(t1.created.date@) == date_text(t2.created.date@),
        t1.created.secs == t2.created.secs,
        t1.created.nanos == t2.created.nanos,
        t1.id == t2.id,
{
    lemma_line_tail(t1, t2);
    lemma_level_bar(t1.progress, t2.progress);
    lemma_created_readable(t1.created, t2.created);
    lemma_line_due(t1, t2);
    lemma_line_head(t1, t2);
}

} // verus!
