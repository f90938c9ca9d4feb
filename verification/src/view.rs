use vstd::prelude::*;
use vstd::string::StringExecFns;
use crate::issue::{issue_line, issue_line_text, Issue};
use crate::markdown::{markdown_events, render_markdown, rendered};
use crate::state::{display_of, AppState};
use crate::text::{concat2, concat3, from_chars, to_chars, texts};

verus! {

/// The header of the pane of the current ticket: key, summary and
/// assignee (or "Unassigned"), or a note when nothing is selected.
pub open spec fn header_text(state: AppState) -> Seq<char> {
    if state.selected < state.issues@.len() {
        let issue = state.issues@[state.selected as int];
        issue.key@ + " >>> "@ + issue.fields.summary@ + " ["@ + match display_of(
            issue.fields.assignee,
        ) {
            Some(a) => a,
            None => "Unassigned"@,
        } + "]"@
    } else {
        "No issue selected"@
    }
}

/// The header of the pane of the current ticket.
pub fn current_ticket_header(state: &AppState) -> (res: String)
    ensures
        res@ == header_text(*state),
{
    match state.selected() {
        Some(issue) => {
            let assignee = match state.assignee() {
                Some(a) => a,
                None => "Unassigned",
            };
            let mut s = concat3(issue.key.as_str(), " >>> ", issue.fields.summary.as_str());
            s.append(" [");
            s.append(assignee);
            s.append("]");
            s
        },
        None => String::from_str("No issue selected"),
    }
}

/// The number of issues that a pane of `height` rows shows, inside its
/// border.
pub open spec fn rows_inside(height: int) -> int {
    if height >= 2 {
        height - 2
    } else {
        0
    }
}

/// The first issue that the list pane shows: the stored scroll, held within
/// the last full page and moved just enough to show the selection.
pub open spec fn window_offset(len: int, selected: int, offset: int, viewport: int) -> int {
    let max_offset = if len >= viewport {
        len - viewport
    } else {
        0
    };
    let lo = if offset < max_offset {
        offset
    } else {
        max_offset
    };
    let lo2 = if selected < lo {
        selected
    } else if selected >= lo + viewport {
        selected - viewport + 1
    } else {
        lo
    };
    if lo2 < max_offset {
        lo2
    } else {
        max_offset
    }
}

/// The number of issues shown from `offset` on.
pub open spec fn window_len(len: int, offset: int, viewport: int) -> int {
    if offset >= len {
        0
    } else if len - offset < viewport {
        len - offset
    } else {
        viewport
    }
}

/// The line of an issue in the list, marked when it is the selected one.
pub open spec fn list_item_text(issue: Issue, index: int, selected: int) -> Seq<char> {
    (if index == selected {
        "> "@
    } else {
        "  "@
    }) + issue_line_text(issue.key@, issue.fields.status.name@, issue.fields.summary@)
}

/// The lines that the list pane shows in `height` rows.
pub open spec fn list_text(state: AppState, height: int) -> Seq<Seq<char>> {
    let len = state.issues@.len() as int;
    let viewport = rows_inside(height);
    let lo = window_offset(len, state.selected as int, state.list_offset as int, viewport);
    Seq::new(
        window_len(len, lo, viewport) as nat,
        |i: int| list_item_text(state.issues@[lo + i], lo + i, state.selected as int),
    )
}

/// The lines that the list pane shows in `height` rows.
pub fn issue_list_lines(state: &AppState, height: u16) -> (res: Vec<String>)
    requires
        rows_inside(height as int) == 0 ==> state.selected < usize::MAX,
    ensures
        texts(res@) == list_text(*state, height as int),
{
    let len = state.issues.len();
    let h = height as usize;
    let viewport = h.saturating_sub(2);
    let max_offset = len.saturating_sub(viewport);
    let lo = if state.list_offset < max_offset {
        state.list_offset
    } else {
        max_offset
    };
    let selected = state.selected;
    let lo2 = if selected < lo {
        selected
    } else if selected >= lo + viewport {
        selected - viewport + 1
    } else {
        lo
    };
    let lo3 = if lo2 < max_offset {
        lo2
    } else {
        max_offset
    };
    let count = if lo3 >= len {
        0
    } else if len - lo3 < viewport {
        len - lo3
    } else {
        viewport
    };
    let ghost want = list_text(*state, height as int);
    assert(lo3 == window_offset(len as int, selected as int, state.list_offset as int, viewport as int));
    assert(count == window_len(len as int, lo3 as int, viewport as int));
    let mut out: Vec<String> = Vec::new();
    for i in 0..count
        invariant
            count <= len - lo3 || count == 0,
            lo3 + count <= len,
            len == state.issues@.len(),
            want == list_text(*state, height as int),
            want.len() == count,
            forall|j: int|
                0 <= j < count ==> #[trigger] want[j] == list_item_text(
                    state.issues@[lo3 + j],
                    lo3 + j,
                    selected as int,
                ),
            selected == state.selected,
            texts(out@) == want.take(i as int),
    {
        let index = lo3 + i;
        let issue = &state.issues[index];
        let line = issue_line(
            issue.key.as_str(),
            issue.fields.status.name.as_str(),
            issue.fields.summary.as_str(),
        );
        let item = if index == selected {
            concat2("> ", line.as_str())
        } else {
            concat2("  ", line.as_str())
        };
        let ghost before = out@;
        out.push(item);
        assert(texts(out@) =~= texts(before).push(item@));
        assert(want.take(i + 1) =~= want.take(i as int).push(want[i as int]));
    }
    assert(want.take(count as int) =~= want);
    out
}

/// The list pane shows the selected issue when there is one and room for a
/// line.
pub proof fn window_shows_selection(len: int, selected: int, offset: int, viewport: int)
    requires
        0 <= selected < len,
        0 <= offset,
        viewport > 0,
    ensures
        window_offset(len, selected, offset, viewport) <= selected,
        selected < window_offset(len, selected, offset, viewport) + window_len(
            len,
            window_offset(len, selected, offset, viewport),
            viewport,
        ),
{
}

/// The number of line breaks in a text.
pub open spec fn newline_count(s: Seq<char>) -> nat
    decreases s.len(),
{
    if s.len() == 0 {
        0
    } else {
        newline_count(s.drop_last()) + if s.last() == '\n' {
            1nat
        } else {
            0nat
        }
    }
}

/// The number of lines that `str::lines` yields for a text: one per line
/// break, and one more when text follows the last break.
pub open spec fn line_count(s: Seq<char>) -> nat {
    newline_count(s) + if s.len() > 0 && s.last() != '\n' {
        1nat
    } else {
        0nat
    }
}

/// The number of lines of a text.
pub fn count_lines(s: &str) -> (res: usize)
    ensures
        res == line_count(s@),
{
    let chars = to_chars(s);
    let n = chars.len();
    let mut count: usize = 0;
    for i in 0..n
        invariant
            n == chars@.len(),
            count == newline_count(chars@.take(i as int)),
            count + (if i > 0 && chars@[i - 1] != '\n' {
                1int
            } else {
                0int
            }) <= i,
    {
        assert(chars@.take(i + 1).drop_last() =~= chars@.take(i as int));
        if chars[i] == '\n' {
            count = count + 1;
        }
    }
    assert(chars@.take(n as int) =~= chars@);
    if n > 0 && chars[n - 1] != '\n' {
        count + 1
    } else {
        count
    }
}

/// The description that the pane shows for an issue, before rendering.
pub open spec fn description_source(issue: Issue) -> Seq<char> {
    match issue.fields.description {
        Some(d) => d@,
        None => "No description"@,
    }
}

/// How far the description is scrolled: the stored scroll, held to the
/// number of lines that do not fit in the pane (cut to 16 bits).
pub open spec fn held_scroll(desc_scroll: u16, lines: nat, height: u16) -> u16 {
    let inside = if height >= 2 {
        (height - 2) as nat
    } else {
        0nat
    };
    let max_scroll = if lines >= inside {
        (lines - inside) as usize
    } else {
        0usize
    };
    let cap = max_scroll as u16;
    if desc_scroll < cap {
        desc_scroll
    } else {
        cap
    }
}

/// The shown scroll is the stored one, held to the number of rendered lines
/// beyond the pane's inner height: never more than either, and the stored
/// scroll itself when it is within that number (which fits in 16 bits).
pub proof fn description_scroll_held(ds: u16, lines: nat, height: u16)
    ensures
        ({
            let inner: nat = if height >= 2 {
                (height - 2) as nat
            } else {
                0
            };
            let over: nat = if lines > inner {
                (lines - inner) as nat
            } else {
                0
            };
            &&& held_scroll(ds, lines, height) <= ds
            &&& over <= u16::MAX ==> held_scroll(ds, lines, height) == if ds <= over {
                ds as int
            } else {
                over as int
            }
        }),
{
}

/// The rendered description of the selected issue and how far it is
/// scrolled in a pane of `height` rows; `None` when nothing is selected.
pub fn description_view(state: &AppState, height: u16) -> (res: Option<(String, u16)>)
    ensures
        state.selected >= state.issues@.len() ==> res is None,
        state.selected < state.issues@.len() ==> (res matches Some(r) && {
            let text = rendered(
                markdown_events(description_source(state.issues@[state.selected as int])),
            );
            &&& r.0@ == text
            &&& r.1 == held_scroll(state.desc_scroll, line_count(text), height)
        }),
{
    match state.selected() {
        Some(issue) => {
            let raw = match &issue.fields.description {
                Some(d) => d.as_str(),
                None => "No description",
            };
            let desc = render_markdown(raw);
            let inside = height.saturating_sub(2) as usize;
            let lines = count_lines(desc.as_str());
            let max_scroll = lines.saturating_sub(inside);
            let cap = max_scroll as u16;
            let scroll = if state.desc_scroll < cap {
                state.desc_scroll
            } else {
                cap
            };
            Some((desc, scroll))
        },
        None => None,
    }
}

/// The query line as it shows: with a block cursor at the cursor's
/// character position (at the end when it lies beyond) while the line is
/// active.
pub open spec fn jql_shown(jql: Seq<char>, cursor: int, active: bool) -> Seq<char> {
    if active {
        let k = if cursor < jql.len() {
            cursor
        } else {
            jql.len() as int
        };
        jql.take(k).push('█') + jql.skip(k)
    } else {
        jql
    }
}

/// The query line as it shows.
pub fn jql_display(jql: &str, cursor: usize, active: bool) -> (res: String)
    ensures
        res@ == jql_shown(jql@, cursor as int, active),
{
    if !active {
        return String::from_str(jql);
    }
    let chars = to_chars(jql);
    let n = chars.len();
    let k = if cursor < n {
        cursor
    } else {
        n
    };
    let mut out: Vec<char> = Vec::new();
    for i in 0..k
        invariant
            k <= n,
            n == chars@.len(),
            out@ == chars@.take(i as int),
    {
        out.push(chars[i]);
        assert(chars@.take(i + 1) =~= chars@.take(i as int).push(chars@[i as int]));
    }
    out.push('█');
    let ghost front = out@;
    for i in k..n
        invariant
            k <= n,
            n == chars@.len(),
            front == chars@.take(k as int).push('█'),
            out@ == front + chars@.subrange(k as int, i as int),
    {
        out.push(chars[i]);
        assert(chars@.subrange(k as int, i + 1) =~= chars@.subrange(k as int, i as int).push(
            chars@[i as int],
        ));
    }
    assert(chars@.subrange(k as int, n as int) =~= chars@.skip(k as int));
    from_chars(&out)
}

/// The title of the query pane.
pub fn jql_title(active: bool) -> (res: &'static str)
    ensures
        res@ == if active {
            " JQL (active) "@
        } else {
            " JQL "@
        },
{
    if active {
        " JQL (active) "
    } else {
        " JQL "
    }
}

/// The text of a field of the form for a new issue: with a block cursor
/// after it while it has the focus.
pub fn form_field_display(value: &str, focused: bool) -> (res: String)
    ensures
        res@ == if focused {
            value@ + " █"@
        } else {
            value@
        },
{
    if focused {
        concat2(value, " █")
    } else {
        String::from_str(value)
    }
}

} // verus!
