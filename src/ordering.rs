use vstd::prelude::*;

use crate::model::{MyDate, MyDateTime, SortingMethod, Todo, TodoView};
use core::cmp::Ordering;

verus! {

/// Order of two integers.
pub open spec fn int_cmp(a: int, b: int) -> Ordering {
    if a < b {
        Ordering::Less
    } else if a > b {
        Ordering::Greater
    } else {
        Ordering::Equal
    }
}

/// The opposite order.
pub open spec fn reversed(o: Ordering) -> Ordering {
    match o {
        Ordering::Less => Ordering::Greater,
        Ordering::Equal => Ordering::Equal,
        Ordering::Greater => Ordering::Less,
    }
}

/// `first`, and where it ties, `second`.
pub open spec fn then_cmp(first: Ordering, second: Ordering) -> Ordering {
    if first == Ordering::Equal {
        second
    } else {
        first
    }
}

/// Chronological order of two moments.
pub open spec fn moment_cmp(a: MyDateTime, b: MyDateTime) -> Ordering {
    then_cmp(
        int_cmp(a.date@, b.date@),
        then_cmp(int_cmp(a.secs as int, b.secs as int), int_cmp(a.nanos as int, b.nanos as int)),
    )
}

/// Incomplete before complete.
pub open spec fn completion_cmp(a: bool, b: bool) -> Ordering {
    if a == b {
        Ordering::Equal
    } else if !a {
        Ordering::Less
    } else {
        Ordering::Greater
    }
}

/// Earlier due date first; no due date after every due date.
pub open spec fn due_cmp(a: Option<MyDate>, b: Option<MyDate>) -> Ordering {
    match (a, b) {
        (Some(x), Some(y)) => int_cmp(x@, y@),
        (Some(_), None) => Ordering::Less,
        (None, Some(_)) => Ordering::Greater,
        (None, None) => Ordering::Equal,
    }
}

/// The order of two tasks under a sorting method. Incomplete tasks come
/// first; then by priority, highest first; or by due date, earliest first
/// and absent last; and at last, most recently created first.
pub open spec fn todo_order(method: SortingMethod, l: TodoView, r: TodoView) -> Ordering {
    let newest_first = reversed(moment_cmp(l.created, r.created));
    then_cmp(
        completion_cmp(l.completed, r.completed),
        match method {
            SortingMethod::Priority => then_cmp(
                reversed(int_cmp(l.priority, r.priority)),
                newest_first,
            ),
            SortingMethod::Due => then_cmp(due_cmp(l.due, r.due), newest_first),
            SortingMethod::Created => newest_first,
        },
    )
}

/// Each task is in order with every later one.
pub open spec fn sorted_by(method: SortingMethod, s: Seq<Todo>) -> bool {
    forall|a: int, b: int|
        0 <= a < b < s.len() ==> todo_order(method, s[a]@, s[b]@) != Ordering::Greater
}

/// `after[k]` is `before[perm[k]]`, each index of `before` used once, and tasks
/// that tie keep their relative order.
pub open spec fn stable_by(
    method: SortingMethod,
    before: Seq<Todo>,
    after: Seq<Todo>,
    perm: Seq<int>,
) -> bool {
    &&& after.len() == before.len()
    &&& perm.len() == before.len()
    &&& forall|k: int| 0 <= k < after.len() ==> 0 <= #[trigger] perm[k] < before.len()
    &&& forall|k: int| 0 <= k < after.len() ==> #[trigger] after[k] == before[perm[k]]
    &&& forall|a: int, b: int| 0 <= a < b < after.len() ==> perm[a] != perm[b]
    &&& forall|a: int, b: int|
        0 <= a < b < after.len() && todo_order(method, after[a]@, after[b]@) == Ordering::Equal
            ==> perm[a] < perm[b]
}

/// `after` is `before` reordered, with ties in their original order.
pub open spec fn stable_reordering(method: SortingMethod, before: Seq<Todo>, after: Seq<Todo>) -> bool {
    exists|perm: Seq<int>| stable_by(method, before, after, perm)
}

/// Each order is a total preorder: the reverse comparison gives the reverse
/// answer, and being in order (and tying) is transitive.
pub proof fn lemma_order_is_total(method: SortingMethod, a: TodoView, b: TodoView, c: TodoView)
    ensures
        todo_order(method, b, a) == reversed(todo_order(method, a, b)),
        todo_order(method, a, b) != Ordering::Greater && todo_order(method, b, c)
            != Ordering::Greater ==> todo_order(method, a, c) != Ordering::Greater,
        todo_order(method, a, b) == Ordering::Equal && todo_order(method, b, c) == Ordering::Equal
            ==> todo_order(method, a, c) == Ordering::Equal,
        todo_order(method, a, a) == Ordering::Equal,
{
}

fn compare_ints(a: i64, b: i64) -> (r: Ordering)
    ensures
        r == int_cmp(a as int, b as int),
{
    if a < b {
        Ordering::Less
    } else if a > b {
        Ordering::Greater
    } else {
        Ordering::Equal
    }
}

fn reverse(o: Ordering) -> (r: Ordering)
    ensures
        r == reversed(o),
{
    match o {
        Ordering::Less => Ordering::Greater,
        Ordering::Equal => Ordering::Equal,
        Ordering::Greater => Ordering::Less,
    }
}

fn compare_moments(a: &MyDateTime, b: &MyDateTime) -> (r: Ordering)
    ensures
        r == moment_cmp(*a, *b),
{
    let by_date = compare_ints(a.date.get_0() as i64, b.date.get_0() as i64);
    if !matches!(by_date, Ordering::Equal) {
        return by_date;
    }
    let by_secs = compare_ints(a.secs as i64, b.secs as i64);
    if !matches!(by_secs, Ordering::Equal) {
        return by_secs;
    }
    compare_ints(a.nanos as i64, b.nanos as i64)
}

fn compare_completion(a: bool, b: bool) -> (r: Ordering)
    ensures
        r == completion_cmp(a, b),
{
    if a == b {
        Ordering::Equal
    } else if !a {
        Ordering::Less
    } else {
        Ordering::Greater
    }
}

/// Tasks by priority: incomplete first, then highest priority, then most
/// recently created.
fn sort_by_priority(l: &Todo, r: &Todo) -> (o: Ordering)
    ensures
        o == todo_order(SortingMethod::Priority, l@, r@),
{
    let compare_complete = compare_completion(l.is_complete(), r.is_complete());
    if matches!(compare_complete, Ordering::Equal) {
        let compare_priority = reverse(
            compare_ints(l.get_priority() as i64, r.get_priority() as i64),
        );
        if matches!(compare_priority, Ordering::Equal) {
            reverse(compare_moments(l.get_created_date(), r.get_created_date()))
        } else {
            compare_priority
        }
    } else {
        compare_complete
    }
}

/// Tasks by due date: incomplete first, then earliest due date with absent
/// dates last, then most recently created.
fn sort_by_due_date(l: &Todo, r: &Todo) -> (o: Ordering)
    ensures
        o == todo_order(SortingMethod::Due, l@, r@),
{
    let compare_complete = compare_completion(l.is_complete(), r.is_complete());
    if matches!(compare_complete, Ordering::Equal) {
        let compare_due = match (l.get_due_date(), r.get_due_date()) {
            (Some(ld), Some(rd)) => compare_ints(ld.get_0() as i64, rd.get_0() as i64),
            (Some(_), None) => Ordering::Less,
            (None, Some(_)) => Ordering::Greater,
            (None, None) => Ordering::Equal,
        };
        if matches!(compare_due, Ordering::Equal) {
            reverse(compare_moments(l.get_created_date(), r.get_created_date()))
        } else {
            compare_due
        }
    } else {
        compare_complete
    }
}

/// Tasks by creation: incomplete first, then most recently created.
fn sort_by_created_date(l: &Todo, r: &Todo) -> (o: Ordering)
    ensures
        o == todo_order(SortingMethod::Created, l@, r@),
{
    let compare_complete = compare_completion(l.is_complete(), r.is_complete());
    if matches!(compare_complete, Ordering::Equal) {
        reverse(compare_moments(l.get_created_date(), r.get_created_date()))
    } else {
        compare_complete
    }
}

/// Compares two tasks under a sorting method.
pub fn compare_todos(method: SortingMethod, l: &Todo, r: &Todo) -> (o: Ordering)
    ensures
        o == todo_order(method, l@, r@),
{
    match method {
        SortingMethod::Priority => sort_by_priority(l, r),
        SortingMethod::Due => sort_by_due_date(l, r),
        SortingMethod::Created => sort_by_created_date(l, r),
    }
}

/// Sorts the tasks in place by a sorting method, keeping tasks that tie in
/// their original order.
pub fn sort_todos(todos: &mut Vec<Todo>, method: SortingMethod)
    ensures
        sorted_by(method, final(todos)@),
        stable_reordering(method, old(todos)@, final(todos)@),
{
    let n = todos.len();
    let ghost orig = todos@;
    let ghost mut perm: Seq<int> = Seq::new(n as nat, |k: int| k);
    let mut i: usize = 0;
    while i < n
        invariant
            n == todos@.len(),
            orig.len() == n,
            i <= n,
            perm.len() == n,
            forall|k: int| 0 <= k < n ==> 0 <= #[trigger] perm[k] < n,
            forall|k: int| 0 <= k < n ==> #[trigger] todos@[k] == orig[perm[k]],
            forall|a: int, b: int| 0 <= a < b < n ==> perm[a] != perm[b],
            forall|k: int| i <= k < n ==> #[trigger] perm[k] == k,
            forall|k: int| 0 <= k < i ==> #[trigger] perm[k] < i,
            forall|a: int, b: int|
                0 <= a < b < i ==> todo_order(method, todos@[a]@, todos@[b]@)
                    != Ordering::Greater,
            forall|a: int, b: int|
                0 <= a < b < i && todo_order(method, todos@[a]@, todos@[b]@) == Ordering::Equal
                    ==> perm[a] < perm[b],
        decreases n - i,
    {
        let ghost before = todos@;
        let x = todos.remove(i);
        let ghost mid = todos@;
        let mut k: usize = i;
        let mut moving = true;
        while moving && k > 0
            invariant
                todos@ == mid,
                mid == before.remove(i as int),
                before.len() == n,
                i < n,
                k <= i,
                x == before[i as int],
                forall|j: int|
                    k <= j < i ==> todo_order(method, #[trigger] mid[j]@, x@) == Ordering::Greater,
                !moving ==> k > 0 && todo_order(method, mid[k - 1]@, x@) != Ordering::Greater,
            decreases k + if moving { 1int } else { 0int },
        {
            let o = compare_todos(method, &todos[k - 1], &x);
            if matches!(o, Ordering::Greater) {
                k = k - 1;
            } else {
                moving = false;
            }
        }
        todos.insert(k, x);
        proof {
            let old_perm = perm;
            perm = old_perm.remove(i as int).insert(k as int, i as int);
            let now = todos@;
            assert(forall|j: int| 0 <= j < k ==> now[j] == before[j] && perm[j] == old_perm[j]);
            assert(forall|j: int|
                k < j <= i ==> now[j] == before[j - 1] && perm[j] == old_perm[j - 1]);
            assert(forall|j: int| i < j < n ==> now[j] == before[j] && perm[j] == old_perm[j]);
            assert(now[k as int] == x && perm[k as int] == i);
            assert forall|a: int, b: int|
                0 <= a < b < i + 1 implies todo_order(method, now[a]@, now[b]@)
                != Ordering::Greater by {
                if b == k {
                    lemma_order_is_total(method, now[a]@, mid[k - 1]@, x@);
                } else if a == k {
                    lemma_order_is_total(method, now[b]@, x@, x@);
                }
            }
            assert forall|a: int, b: int|
                0 <= a < b < i + 1 && todo_order(method, now[a]@, now[b]@) == Ordering::Equal
                implies perm[a] < perm[b] by {
                if a == k {
                    lemma_order_is_total(method, now[b]@, x@, x@);
                }
            }
        }
        i = i + 1;
    }
    proof {
        assert(stable_by(method, orig, todos@, perm));
    }
}

/// Sorts by priority: incomplete first, highest priority first, then most
/// recently created first; ties keep their order.
pub fn sort_todos_by_priority_desc(todos: &mut Vec<Todo>)
    ensures
        sorted_by(SortingMethod::Priority, final(todos)@),
        stable_reordering(SortingMethod::Priority, old(todos)@, final(todos)@),
{
    sort_todos(todos, SortingMethod::Priority)
}

/// Sorts by due date: incomplete first, earliest due date first with absent
/// dates last, then most recently created first; ties keep their order.
pub fn sort_todos_by_due_date_asc(todos: &mut Vec<Todo>)
    ensures
        sorted_by(SortingMethod::Due, final(todos)@),
        stable_reordering(SortingMethod::Due, old(todos)@, final(todos)@),
{
    sort_todos(todos, SortingMethod::Due)
}

/// Sorts by creation: incomplete first, then most recently created first;
/// ties keep their order.
pub fn sort_todos_by_created_date_asc(todos: &mut Vec<Todo>)
    ensures
        sorted_by(SortingMethod::Created, final(todos)@),
        stable_reordering(SortingMethod::Created, old(todos)@, final(todos)@),
{
    sort_todos(todos, SortingMethod::Created)
}

/// Due date `x` is no later than `y`: both present and in order, or `y`
/// absent.
pub open spec fn due_no_later(x: Option<MyDate>, y: Option<MyDate>) -> bool {
    match (x, y) {
        (Some(dx), Some(dy)) => dx@ <= dy@,
        (None, Some(_)) => false,
        _ => true,
    }
}

/// After a sort by due date: incomplete tasks come first and complete ones
/// after them; among the incomplete ones due dates never decrease, and those
/// without a due date come after every one with a due date; tasks that tie
/// (same completion, same due date or none, same creation moment) stay in
/// their original relative order.
pub proof fn lemma_due_sort_layout(before: Seq<Todo>, after: Seq<Todo>)
    requires
        sorted_by(SortingMethod::Due, after),
        stable_reordering(SortingMethod::Due, before, after),
    ensures
        forall|a: int, b: int|
            #![trigger after[a], after[b]]
            0 <= a < b < after.len() && after[a]@.completed ==> after[b]@.completed,
        forall|a: int, b: int|
            0 <= a < b < after.len() && !after[b]@.completed ==> #[trigger] due_no_later(
                after[a]@.due,
                after[b]@.due,
            ),
        exists|perm: Seq<int>|
            {
                &&& after.len() == before.len()
                &&& perm.len() == before.len()
                &&& forall|k: int| 0 <= k < after.len() ==> 0 <= #[trigger] perm[k] < before.len()
                &&& forall|k: int| 0 <= k < after.len() ==> #[trigger] after[k] == before[perm[k]]
                &&& forall|a: int, b: int| 0 <= a < b < after.len() ==> perm[a] != perm[b]
                &&& forall|a: int, b: int|
                    0 <= a < b < after.len() && after[a]@.completed == after[b]@.completed
                        && after[a]@.due == after[b]@.due && after[a]@.created
                        == after[b]@.created ==> perm[a] < perm[b]
            },
{
    let perm = choose|perm: Seq<int>| stable_by(SortingMethod::Due, before, after, perm);
    assert forall|a: int, b: int|
        0 <= a < b < after.len() && after[a]@.completed implies after[b]@.completed by {
        assert(todo_order(SortingMethod::Due, after[a]@, after[b]@) != Ordering::Greater);
    }
    assert forall|a: int, b: int|
        0 <= a < b < after.len() && !after[b]@.completed implies due_no_later(
        after[a]@.due,
        after[b]@.due,
    ) by {
        assert(todo_order(SortingMethod::Due, after[a]@, after[b]@) != Ordering::Greater);
    }
    assert forall|a: int, b: int|
        0 <= a < b < after.len() && after[a]@.completed == after[b]@.completed && after[a]@.due
            == after[b]@.due && after[a]@.created == after[b]@.created implies perm[a]
        < perm[b] by {
        assert(todo_order(SortingMethod::Due, after[a]@, after[b]@) == Ordering::Equal);
    }
}

} // verus!
