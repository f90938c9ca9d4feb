use vstd::prelude::*;
use crate::http::browse_url;
use crate::state::{AppState, Focus, next_selected, prev_selected};
use crate::text::{from_chars, push_char, to_chars};

verus! {

/// A key press, as the terminal interface tells them apart.
pub enum KeyInput {
    Char(char),
    Esc,
    Backspace,
    Enter,
    Other,
}

/// What the terminal interface does after a key press.
pub enum KeyAction {
    /// Draw again and wait for the next key.
    Continue,
    /// Leave the interface.
    Quit,
    /// Run the query and show its issues.
    Reload,
    /// Open this address in the browser.
    Open(String),
}

/// Whether `b` differs from `a` at most in the parts that keys change, and
/// has the given values there.
pub open spec fn ui_is(
    a: AppState,
    b: AppState,
    selected: int,
    desc_scroll: int,
    jql: Seq<char>,
    editing_jql: bool,
    focus: Focus,
    show_help: bool,
) -> bool {
    &&& b.issues == a.issues
    &&& b.list_offset == a.list_offset
    &&& b.jql_cursor == a.jql_cursor
    &&& b.jira == a.jira
    &&& b.selected == selected
    &&& b.desc_scroll == desc_scroll
    &&& b.jql@ == jql
    &&& b.editing_jql == editing_jql
    &&& b.focus == focus
    &&& b.show_help == show_help
}

/// Whether `b` is `a` unchanged.
pub open spec fn unchanged(a: AppState, b: AppState) -> bool {
    ui_is(a, b, a.selected as int, a.desc_scroll as int, a.jql@, a.editing_jql, a.focus, a.show_help)
}

/// What a key press does to the state and what the interface does next.
/// The keys `q`, `?`, `@`, `#` and Esc act wherever the focus is; the
/// others depend on the focus: the issue list moves the selection (`j`,
/// `k`), scrolls the description (`d`, `u`), opens the issue (`o`) and
/// turns to the query line to update the query (`/`); the
/// query line takes characters, deletes with Backspace and runs with
/// Enter.
pub open spec fn key_outcome(a: AppState, b: AppState, key: KeyInput, act: KeyAction) -> bool {
    match key {
        KeyInput::Char('q') => act is Quit && unchanged(a, b),
        KeyInput::Char('?') => act is Continue && ui_is(
            a,
            b,
            a.selected as int,
            a.desc_scroll as int,
            a.jql@,
            a.editing_jql,
            a.focus,
            !a.show_help,
        ),
        KeyInput::Char('@') => act is Continue && ui_is(
            a,
            b,
            a.selected as int,
            a.desc_scroll as int,
            a.jql@,
            true,
            Focus::Jql,
            a.show_help,
        ),
        KeyInput::Char('#') => act is Continue && ui_is(
            a,
            b,
            a.selected as int,
            a.desc_scroll as int,
            Seq::empty(),
            true,
            Focus::Jql,
            a.show_help,
        ),
        KeyInput::Esc => act is Continue && if a.show_help {
            ui_is(
                a,
                b,
                a.selected as int,
                a.desc_scroll as int,
                a.jql@,
                a.editing_jql,
                a.focus,
                false,
            )
        } else {
            ui_is(
                a,
                b,
                a.selected as int,
                a.desc_scroll as int,
                a.jql@,
                false,
                Focus::Issues,
                a.show_help,
            )
        },
        _ => match a.focus {
            Focus::Issues => match key {
                KeyInput::Char('/') => act is Continue && ui_is(
                    a,
                    b,
                    a.selected as int,
                    a.desc_scroll as int,
                    a.jql@,
                    true,
                    Focus::Jql,
                    a.show_help,
                ),
                KeyInput::Char('j') => act is Continue && ui_is(
                    a,
                    b,
                    next_selected(a.selected as int, a.issues@.len() as int),
                    a.desc_scroll as int,
                    a.jql@,
                    a.editing_jql,
                    a.focus,
                    a.show_help,
                ),
                KeyInput::Char('k') => act is Continue && ui_is(
                    a,
                    b,
                    prev_selected(a.selected as int),
                    a.desc_scroll as int,
                    a.jql@,
                    a.editing_jql,
                    a.focus,
                    a.show_help,
                ),
                KeyInput::Char('d') => act is Continue && ui_is(
                    a,
                    b,
                    a.selected as int,
                    if a.desc_scroll < u16::MAX {
                        a.desc_scroll + 1
                    } else {
                        a.desc_scroll as int
                    },
                    a.jql@,
                    a.editing_jql,
                    a.focus,
                    a.show_help,
                ),
                KeyInput::Char('u') => act is Continue && ui_is(
                    a,
                    b,
                    a.selected as int,
                    if a.desc_scroll > 0 {
                        a.desc_scroll - 1
                    } else {
                        0
                    },
                    a.jql@,
                    a.editing_jql,
                    a.focus,
                    a.show_help,
                ),
                KeyInput::Char('o') => unchanged(a, b) && if a.selected < a.issues@.len() {
                    act matches KeyAction::Open(url) && url@ == a.jira.settings().jira_url@
                        + "/browse/"@ + a.issues@[a.selected as int].key@
                } else {
                    act is Continue
                },
                _ => act is Continue && unchanged(a, b),
            },
            Focus::Jql => match key {
                KeyInput::Char(c) => act is Continue && ui_is(
                    a,
                    b,
                    a.selected as int,
                    a.desc_scroll as int,
                    a.jql@.push(c),
                    a.editing_jql,
                    a.focus,
                    a.show_help,
                ),
                KeyInput::Backspace => act is Continue && ui_is(
                    a,
                    b,
                    a.selected as int,
                    a.desc_scroll as int,
                    if a.jql@.len() > 0 {
                        a.jql@.drop_last()
                    } else {
                        a.jql@
                    },
                    a.editing_jql,
                    a.focus,
                    a.show_help,
                ),
                KeyInput::Enter => act is Reload && ui_is(
                    a,
                    b,
                    a.selected as int,
                    a.desc_scroll as int,
                    a.jql@,
                    false,
                    Focus::Issues,
                    a.show_help,
                ),
                _ => act is Continue && unchanged(a, b),
            },
        },
    }
}

/// Whether the key press stays within the machine's integers: moving down
/// needs the selection below `usize::MAX`.
pub open spec fn key_fits(a: AppState, key: KeyInput) -> bool {
    (a.focus is Issues && key == KeyInput::Char('j')) ==> a.selected < usize::MAX
}

/// Handles one key press of the terminal interface.
pub fn handle_key(state: &mut AppState, key: KeyInput) -> (act: KeyAction)
    requires
        key_fits(*old(state), key),
    ensures
        key_outcome(*old(state), *final(state), key, act),
{
    match key {
        KeyInput::Char('q') => {
            return KeyAction::Quit;
        },
        KeyInput::Char('?') => {
            state.show_help = !state.show_help;
            return KeyAction::Continue;
        },
        KeyInput::Char('@') => {
            state.focus = Focus::Jql;
            state.editing_jql = true;
            return KeyAction::Continue;
        },
        KeyInput::Char('#') => {
            state.focus = Focus::Jql;
            state.editing_jql = true;
            state.jql = String::new();
            return KeyAction::Continue;
        },
        KeyInput::Esc => {
            if state.show_help {
                state.show_help = false;
            } else {
                state.focus = Focus::Issues;
                state.editing_jql = false;
            }
            return KeyAction::Continue;
        },
        _ => {},
    }
    match state.focus {
        Focus::Issues => match key {
            KeyInput::Char('/') => {
                state.focus = Focus::Jql;
                state.editing_jql = true;
                KeyAction::Continue
            },
            KeyInput::Char('j') => {
                state.next();
                KeyAction::Continue
            },
            KeyInput::Char('k') => {
                state.prev();
                KeyAction::Continue
            },
            KeyInput::Char('d') => {
                state.desc_scroll = state.desc_scroll.saturating_add(1);
                KeyAction::Continue
            },
            KeyInput::Char('u') => {
                state.desc_scroll = state.desc_scroll.saturating_sub(1);
                KeyAction::Continue
            },
            KeyInput::Char('o') => {
                match state.selected() {
                    Some(issue) => {
                        let url = browse_url(state.jira.jira_url(), issue.key.as_str());
                        KeyAction::Open(url)
                    },
                    None => KeyAction::Continue,
                }
            },
            _ => KeyAction::Continue,
        },
        Focus::Jql => match key {
            KeyInput::Char(c) => {
                push_char(&mut state.jql, c);
                KeyAction::Continue
            },
            KeyInput::Backspace => {
                let chars = to_chars(state.jql.as_str());
                if chars.len() > 0 {
                    let mut shorter = chars;
                    shorter.pop();
                    state.jql = from_chars(&shorter);
                }
                KeyAction::Continue
            },
            KeyInput::Enter => {
                state.focus = Focus::Issues;
                state.editing_jql = false;
                KeyAction::Reload
            },
            _ => KeyAction::Continue,
        },
    }
}

/// Pressing `?` twice leaves the interface as it was.
pub proof fn help_toggle_twice(
    a: AppState,
    b: AppState,
    c: AppState,
    x: KeyAction,
    y: KeyAction,
)
    requires
        key_outcome(a, b, KeyInput::Char('?'), x),
        key_outcome(b, c, KeyInput::Char('?'), y),
    ensures
        unchanged(a, c),
{
}

/// In the query line, a typed character is taken back by Backspace (`q`,
/// `?`, `@` and `#` act everywhere and are not typed).
pub proof fn type_then_backspace(
    a: AppState,
    b: AppState,
    c: AppState,
    ch: char,
    x: KeyAction,
    y: KeyAction,
)
    requires
        a.focus == Focus::Jql,
        ch != 'q' && ch != '?' && ch != '@' && ch != '#',
        key_outcome(a, b, KeyInput::Char(ch), x),
        key_outcome(b, c, KeyInput::Backspace, y),
    ensures
        unchanged(a, c),
{
    assert(a.jql@.push(ch).drop_last() =~= a.jql@);
}

/// `#` and then Enter runs the empty query from the issue list.
pub proof fn clear_then_run(a: AppState, b: AppState, c: AppState, x: KeyAction, y: KeyAction)
    requires
        key_outcome(a, b, KeyInput::Char('#'), x),
        key_outcome(b, c, KeyInput::Enter, y),
    ensures
        y is Reload,
        c.jql@.len() == 0,
        c.focus == Focus::Issues,
        !c.editing_jql,
{
}

/// In the issue list, `u` scrolls the description up one line (it stays at
/// the top once there) and changes nothing else; `d` scrolls it down one
/// line, up to the largest scroll.
pub proof fn scroll_keys_move_one_line(a: AppState, b: AppState, x: KeyAction, key: KeyInput)
    requires
        a.focus == Focus::Issues,
        key == KeyInput::Char('u') || key == KeyInput::Char('d'),
        key_outcome(a, b, key, x),
    ensures
        key == KeyInput::Char('u') && a.desc_scroll > 0 ==> b.desc_scroll + 1 == a.desc_scroll,
        key == KeyInput::Char('u') && a.desc_scroll == 0 ==> b.desc_scroll == 0,
        key == KeyInput::Char('d') && a.desc_scroll < u16::MAX ==> b.desc_scroll == a.desc_scroll
            + 1,
        key == KeyInput::Char('d') && a.desc_scroll == u16::MAX ==> b.desc_scroll == u16::MAX,
        b.selected == a.selected,
        b.jql@ == a.jql@,
        b.focus == a.focus,
        b.show_help == a.show_help,
        x is Continue,
{
}

/// In the issue list, `d` and then `u` give back the scroll there was, when
/// it was below the largest one, and leave the interface as it was.
pub proof fn scroll_down_then_up(a: AppState, b: AppState, c: AppState, x: KeyAction, y: KeyAction)
    requires
        a.focus == Focus::Issues,
        a.desc_scroll < u16::MAX,
        key_outcome(a, b, KeyInput::Char('d'), x),
        key_outcome(b, c, KeyInput::Char('u'), y),
    ensures
        c.desc_scroll == a.desc_scroll,
        unchanged(a, c),
{
}

/// `@` gives the query line the focus from anywhere, in append mode: the
/// query stays as it was, and a following key other than `q`, `?`, `@` and
/// `#` is added to its end while the selection stays.
pub proof fn at_focuses_query_line(
    a: AppState,
    b: AppState,
    c: AppState,
    ch: char,
    x: KeyAction,
    y: KeyAction,
)
    requires
        key_outcome(a, b, KeyInput::Char('@'), x),
        key_outcome(b, c, KeyInput::Char(ch), y),
        ch != 'q' && ch != '?' && ch != '@' && ch != '#',
    ensures
        b.focus == Focus::Jql,
        b.editing_jql,
        b.jql@ == a.jql@,
        b.selected == a.selected,
        c.jql@ == a.jql@ + seq![ch],
        c.selected == a.selected,
        c.focus == Focus::Jql,
{
    assert(b.jql@.push(ch) =~= a.jql@ + seq![ch]);
}

/// `q` quits from anywhere and changes nothing.
pub proof fn quit_anywhere(a: AppState, b: AppState, x: KeyAction)
    requires
        key_outcome(a, b, KeyInput::Char('q'), x),
    ensures
        x is Quit,
        unchanged(a, b),
{
}

} // verus!
