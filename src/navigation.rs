use vstd::prelude::*;

use crate::model::{Action, KeyEvent, SortingMethod};
use vstd::arithmetic::div_mod::{
    lemma_add_mod_noop,
    lemma_mod_add_multiples_vanish,
    lemma_mod_self_0,
    lemma_small_mod,
};

verus! {

/// A key press, as the list screen tells keys apart.
#[derive(Clone, Copy, Debug, PartialEq, Eq, Structural)]
pub enum Key {
    Enter,
    Backspace,
    ArrowUp,
    ArrowDown,
    ArrowLeft,
    ArrowRight,
    Char(char),
    /// Any other key.
    Other,
}

/// The menu command of a key on the list screen; `None` for a key the menu
/// ignores.
pub open spec fn key_event(key: Key) -> Option<KeyEvent> {
    match key {
        Key::Enter => Some(KeyEvent::Back),
        Key::ArrowLeft => Some(KeyEvent::DecreaseProgress),
        Key::ArrowRight => Some(KeyEvent::IncreaseProgress),
        Key::ArrowUp => Some(KeyEvent::NavigateUp),
        Key::ArrowDown => Some(KeyEvent::NavigateDown),
        Key::Char(c) => if c == 'm' {
            Some(KeyEvent::Export)
        } else if c == 'a' {
            Some(KeyEvent::Add)
        } else if c == 'e' {
            Some(KeyEvent::Edit)
        } else if c == 's' {
            Some(KeyEvent::Sort)
        } else if c == 'x' {
            Some(KeyEvent::ToggleRead)
        } else if c == 'z' {
            Some(KeyEvent::Delete)
        } else if c == '+' {
            Some(KeyEvent::IncreasePriority)
        } else if c == '-' {
            Some(KeyEvent::DecreasePriority)
        } else if c == 'Z' {
            Some(KeyEvent::DeleteCompleted)
        } else {
            None
        },
        _ => None,
    }
}

/// The answer a key gives in the sort menu: `Some(Some(m))` picks method `m`,
/// `Some(None)` goes back, `None` is a key the menu ignores.
pub open spec fn sort_choice(key: Key) -> Option<Option<SortingMethod>> {
    match key {
        Key::Backspace => Some(None),
        Key::Char(c) => if c == 'p' {
            Some(Some(SortingMethod::Priority))
        } else if c == 'd' {
            Some(Some(SortingMethod::Due))
        } else if c == 'c' {
            Some(Some(SortingMethod::Created))
        } else {
            None
        },
        _ => None,
    }
}

/// The answer a key gives to a yes/no question: only `y` confirms; Enter,
/// `n` and `N` decline; other keys are ignored.
pub open spec fn confirm_choice(key: Key) -> Option<bool> {
    match key {
        Key::Char(c) => if c == 'y' {
            Some(true)
        } else if c == 'n' || c == 'N' {
            Some(false)
        } else {
            None
        },
        Key::Enter => Some(false),
        _ => None,
    }
}

/// Reads a key of the list screen's menu.
pub fn wait_key_event(key: Key) -> (r: Option<KeyEvent>)
    ensures
        r == key_event(key),
{
    match key {
        Key::Enter => Some(KeyEvent::Back),
        Key::Char('m') => Some(KeyEvent::Export),
        Key::Char('a') => Some(KeyEvent::Add),
        Key::Char('e') => Some(KeyEvent::Edit),
        Key::Char('s') => Some(KeyEvent::Sort),
        Key::Char('x') => Some(KeyEvent::ToggleRead),
        Key::Char('z') => Some(KeyEvent::Delete),
        Key::Char('+') => Some(KeyEvent::IncreasePriority),
        Key::Char('-') => Some(KeyEvent::DecreasePriority),
        Key::Char('Z') => Some(KeyEvent::DeleteCompleted),
        Key::ArrowLeft => Some(KeyEvent::DecreaseProgress),
        Key::ArrowRight => Some(KeyEvent::IncreaseProgress),
        Key::ArrowUp => Some(KeyEvent::NavigateUp),
        Key::ArrowDown => Some(KeyEvent::NavigateDown),
        _ => None,
    }
}

/// Reads a key of the sort menu.
pub fn wait_sort_key(key: Key) -> (r: Option<Option<SortingMethod>>)
    ensures
        r == sort_choice(key),
{
    match key {
        Key::Backspace => Some(None),
        Key::Char('p') => Some(Some(SortingMethod::Priority)),
        Key::Char('d') => Some(Some(SortingMethod::Due)),
        Key::Char('c') => Some(Some(SortingMethod::Created)),
        _ => None,
    }
}

/// Reads a key of a yes/no question.
pub fn wait_confirm(key: Key) -> (r: Option<bool>)
    ensures
        r == confirm_choice(key),
{
    match key {
        Key::Char('y') => Some(true),
        Key::Enter | Key::Char('n') | Key::Char('N') => Some(false),
        _ => None,
    }
}

/// The cursor one row down, from the last row back to the first.
pub open spec fn next_down(x: int, m: int) -> int {
    if x + 1 == m {
        0
    } else {
        x + 1
    }
}

/// The cursor one row up, from the first row to the last (0 when there is no
/// row).
pub open spec fn next_up(x: int, m: int) -> int {
    if x == 0 {
        if m == 0 {
            0
        } else {
            m - 1
        }
    } else {
        x - 1
    }
}

/// A cursor brought within a list of `m` rows: 0 for an empty list, the last
/// row past the end.
pub open spec fn clamped(p: int, m: int) -> int {
    if m == 0 {
        0
    } else if p >= m {
        m - 1
    } else {
        p
    }
}

/// Moves the cursor one row down, wrapping to the first row.
pub fn add_usize_module(x: usize, m: usize) -> (r: usize)
    requires
        x < m || x == 0,
    ensures
        r == next_down(x as int, m as int),
        x < m ==> r == (x + 1) % (m as int),
{
    proof {
        if x < m {
            if x + 1 < m {
                lemma_small_mod((x + 1) as nat, m as nat);
            } else {
                lemma_mod_self_0(m as int);
            }
        }
    }
    if x + 1 == m {
        0
    } else {
        x + 1
    }
}

/// Moves the cursor one row up, wrapping to the last row.
pub fn sub_usize_module(x: usize, m: usize) -> (r: usize)
    ensures
        r == next_up(x as int, m as int),
        x < m ==> r == (x + m - 1) % (m as int),
{
    proof {
        if x < m {
            if x == 0 {
                lemma_small_mod((m - 1) as nat, m as nat);
            } else {
                lemma_small_mod((x - 1) as nat, m as nat);
                lemma_mod_add_multiples_vanish(x - 1, m as int);
            }
        }
    }
    if x == 0 {
        if m == 0 {
            0
        } else {
            m - 1
        }
    } else {
        x - 1
    }
}

/// Brings a cursor within a list of `m` rows.
pub fn get_pos_overflow(p: usize, m: usize) -> (r: usize)
    ensures
        r == clamped(p as int, m as int),
        m > 0 ==> r < m,
        m == 0 ==> r == 0,
{
    if m == 0 {
        return 0;
    }
    if p >= m {
        return m - 1;
    }
    p
}

/// What the list screen waits for: a menu key, a sort method, or a yes/no
/// answer before a destructive action.
#[derive(Clone, Copy, Debug, PartialEq, Eq, Structural)]
pub enum Prompt {
    Menu,
    SortMenu,
    Confirm(Action),
}

/// The list screen: the cursor row and what the screen waits for.
#[derive(Clone, Copy, Debug, PartialEq, Eq, Structural)]
pub struct Screen {
    pub pos: usize,
    pub prompt: Prompt,
}

/// What one key does on the list screen.
#[derive(Clone, Copy, Debug, PartialEq, Eq, Structural)]
pub enum Step {
    /// The screen goes on waiting, in this state.
    Stay(Screen),
    /// The user leaves the screen.
    Exit,
    /// An action is resolved, with the cursor row it applies to.
    Done(usize, Action),
}

/// The action a menu event resolves to at once, if it does.
pub open spec fn immediate_action(ev: KeyEvent) -> Option<Action> {
    match ev {
        KeyEvent::ToggleRead => Some(Action::ToggleRead),
        KeyEvent::IncreasePriority => Some(Action::IncreasePriority),
        KeyEvent::DecreasePriority => Some(Action::DecreasePriority),
        KeyEvent::IncreaseProgress => Some(Action::IncreaseProgress),
        KeyEvent::DecreaseProgress => Some(Action::DecreaseProgress),
        KeyEvent::Edit => Some(Action::Edit),
        KeyEvent::Add => Some(Action::Add),
        KeyEvent::Export => Some(Action::Export),
        _ => None,
    }
}

/// The list screen's transition on one key, over a list of `len` rows. The
/// cursor is first brought within the list. In the menu: Enter leaves, the
/// arrows move the cursor with wraparound, `s` opens the sort menu, `z` and
/// `Z` ask for confirmation, the other commands resolve at once, and other
/// keys are ignored. In the sort menu a method resolves to a sort with the
/// cursor back on the first row, and Backspace to a reload. A question
/// resolves to its action on `y` and to a reload on a refusal.
pub open spec fn screen_next(s: Screen, len: int, key: Key) -> Step {
    let pos = clamped(s.pos as int, len) as usize;
    match s.prompt {
        Prompt::Menu => match key_event(key) {
            None => Step::Stay(Screen { pos, prompt: Prompt::Menu }),
            Some(ev) => match ev {
                KeyEvent::Back => Step::Exit,
                KeyEvent::Sort => Step::Stay(Screen { pos, prompt: Prompt::SortMenu }),
                KeyEvent::Delete => Step::Stay(
                    Screen { pos, prompt: Prompt::Confirm(Action::Delete) },
                ),
                KeyEvent::DeleteCompleted => Step::Stay(
                    Screen { pos, prompt: Prompt::Confirm(Action::DeleteCompleted) },
                ),
                KeyEvent::NavigateDown => Step::Stay(
                    Screen { pos: next_down(pos as int, len) as usize, prompt: Prompt::Menu },
                ),
                KeyEvent::NavigateUp => Step::Stay(
                    Screen { pos: next_up(pos as int, len) as usize, prompt: Prompt::Menu },
                ),
                _ => Step::Done(pos, immediate_action(ev)->0),
            },
        },
        Prompt::SortMenu => match sort_choice(key) {
            None => Step::Stay(Screen { pos, prompt: Prompt::SortMenu }),
            Some(None) => Step::Done(pos, Action::Reload),
            Some(Some(m)) => Step::Done(0, Action::Sort(m)),
        },
        Prompt::Confirm(a) => match confirm_choice(key) {
            None => Step::Stay(Screen { pos, prompt: Prompt::Confirm(a) }),
            Some(true) => Step::Done(pos, a),
            Some(false) => Step::Done(pos, Action::Reload),
        },
    }
}

/// Applies one key to the list screen over a list of `len` rows.
pub fn navigate_screen(screen: Screen, len: usize, key: Key) -> (r: Step)
    ensures
        r == screen_next(screen, len as int, key),
{
    let pos = get_pos_overflow(screen.pos, len);
    match screen.prompt {
        Prompt::Menu => match wait_key_event(key) {
            None => Step::Stay(Screen { pos, prompt: Prompt::Menu }),
            Some(KeyEvent::Back) => Step::Exit,
            Some(KeyEvent::Sort) => Step::Stay(Screen { pos, prompt: Prompt::SortMenu }),
            Some(KeyEvent::Delete) => Step::Stay(
                Screen { pos, prompt: Prompt::Confirm(Action::Delete) },
            ),
            Some(KeyEvent::DeleteCompleted) => Step::Stay(
                Screen { pos, prompt: Prompt::Confirm(Action::DeleteCompleted) },
            ),
            Some(KeyEvent::NavigateDown) => Step::Stay(
                Screen { pos: add_usize_module(pos, len), prompt: Prompt::Menu },
            ),
            Some(KeyEvent::NavigateUp) => Step::Stay(
                Screen { pos: sub_usize_module(pos, len), prompt: Prompt::Menu },
            ),
            Some(KeyEvent::ToggleRead) => Step::Done(pos, Action::ToggleRead),
            Some(KeyEvent::IncreasePriority) => Step::Done(pos, Action::IncreasePriority),
            Some(KeyEvent::DecreasePriority) => Step::Done(pos, Action::DecreasePriority),
            Some(KeyEvent::IncreaseProgress) => Step::Done(pos, Action::IncreaseProgress),
            Some(KeyEvent::DecreaseProgress) => Step::Done(pos, Action::DecreaseProgress),
            Some(KeyEvent::Edit) => Step::Done(pos, Action::Edit),
            Some(KeyEvent::Add) => Step::Done(pos, Action::Add),
            Some(KeyEvent::Export) => Step::Done(pos, Action::Export),
        },
        Prompt::SortMenu => match wait_sort_key(key) {
            None => Step::Stay(Screen { pos, prompt: Prompt::SortMenu }),
            Some(None) => Step::Done(pos, Action::Reload),
            Some(Some(m)) => Step::Done(0, Action::Sort(m)),
        },
        Prompt::Confirm(a) => match wait_confirm(key) {
            None => Step::Stay(Screen { pos, prompt: Prompt::Confirm(a) }),
            Some(true) => Step::Done(pos, a),
            Some(false) => Step::Done(pos, Action::Reload),
        },
    }
}

/// The screen after pressing the same key `k` times, stopping at the first
/// key that leaves the screen or resolves an action.
pub open spec fn after_presses(s: Screen, len: int, key: Key, k: nat) -> Step
    decreases k,
{
    if k == 0 {
        Step::Stay(s)
    } else {
        match after_presses(s, len, key, (k - 1) as nat) {
            Step::Stay(t) => screen_next(t, len, key),
            other => other,
        }
    }
}

proof fn lemma_down_presses(p: int, n: int, k: nat)
    requires
        0 <= p < n <= usize::MAX,
    ensures
        after_presses(Screen { pos: p as usize, prompt: Prompt::Menu }, n, Key::ArrowDown, k)
            == Step::Stay(Screen { pos: ((p + k) % n) as usize, prompt: Prompt::Menu }),
    decreases k,
{
    if k == 0 {
        lemma_small_mod(p as nat, n as nat);
    } else {
        lemma_down_presses(p, n, (k - 1) as nat);
        let q = (p + k - 1) % n;
        assert(0 <= q < n);
        lemma_add_mod_noop(p + k - 1, 1, n);
        if n > 1 {
            lemma_small_mod(1, n as nat);
            if q + 1 < n {
                lemma_small_mod((q + 1) as nat, n as nat);
            } else {
                lemma_mod_self_0(n);
            }
        }
    }
}

/// On a list of `n > 0` rows, pressing the down arrow `n` times in the menu
/// brings the cursor back to the row it started on; on an empty list the
/// cursor is always row 0.
pub proof fn lemma_navigate_down_cycles(p: int, n: int)
    requires
        0 <= p < n <= usize::MAX,
    ensures
        after_presses(Screen { pos: p as usize, prompt: Prompt::Menu }, n, Key::ArrowDown, n as nat)
            == Step::Stay(Screen { pos: p as usize, prompt: Prompt::Menu }),
        forall|q: int| #[trigger] clamped(q, 0) == 0,
{
    lemma_down_presses(p, n, n as nat);
    lemma_mod_add_multiples_vanish(p, n);
    lemma_small_mod(p as nat, n as nat);
}

} // verus!
