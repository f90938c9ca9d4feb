use vstd::prelude::*;
use vstd::string::StringExecFns;
use crate::http::JiraClient;
use crate::issue::{Issue, User};
use crate::text::{from_chars, to_chars};
use crate::utf8len::{
    char_index, char_index_of, is_boundary, lemma_char_index_unique, lemma_encode_concat,
    lemma_prefix_len_bound, lemma_scalar_len, utf8_len,
};

verus! {

/// Which part of the terminal interface takes the keys.
pub enum Focus {
    Issues,
    Jql,
}

/// The state of the terminal interface.
pub struct AppState {
    pub issues: Vec<Issue>,
    pub selected: usize,
    pub desc_scroll: u16,
    pub list_offset: usize,
    pub jql: String,
    pub jql_cursor: usize,
    pub editing_jql: bool,
    pub jira: JiraClient,
    pub focus: Focus,
    pub show_help: bool,
}

/// The selection after moving down: one further while there is an issue
/// below.
pub open spec fn next_selected(selected: int, len: int) -> int {
    if selected + 1 < len {
        selected + 1
    } else {
        selected
    }
}

/// The selection after moving up: one back unless it is the first.
pub open spec fn prev_selected(selected: int) -> int {
    if selected > 0 {
        selected - 1
    } else {
        selected
    }
}

/// The first issue that the list shows after it has been scrolled to keep
/// the selection in view.
pub open spec fn scrolled_offset(len: int, selected: int, offset: int, viewport: int) -> int {
    if len == 0 {
        offset
    } else {
        let o1 = if selected < offset {
            selected
        } else {
            offset
        };
        let o2 = if selected >= o1 + viewport {
            selected - viewport + 1
        } else {
            o1
        };
        let max_offset = if len >= viewport {
            len - viewport
        } else {
            0
        };
        if o2 > max_offset {
            max_offset
        } else {
            o2
        }
    }
}

/// Whether scrolling the list stays within `usize`.
pub open spec fn scroll_fits(len: int, selected: int, offset: int, viewport: int) -> bool {
    len > 0 ==> {
        let o1 = if selected < offset {
            selected
        } else {
            offset
        };
        &&& o1 + viewport <= usize::MAX
        &&& (selected >= o1 + viewport ==> selected - viewport + 1 <= usize::MAX)
    }
}

/// The text of the query with `c` inserted at byte offset `b`.
pub open spec fn inserted_at(s: Seq<char>, b: int, c: char) -> Seq<char> {
    let k = char_index(s, b);
    s.take(k).push(c) + s.skip(k)
}

/// The text of the query with the character at byte offset `b` removed.
pub open spec fn removed_at(s: Seq<char>, b: int) -> Seq<char> {
    let k = char_index(s, b);
    s.take(k) + s.skip(k + 1)
}

/// The display name of a person, when there is one.
pub open spec fn display_of(user: Option<User>) -> Option<Seq<char>> {
    match user {
        Some(u) => match u.display_name {
            Some(d) => Some(d@),
            None => None,
        },
        None => None,
    }
}

impl AppState {
    /// The display name of the assignee of the selected issue.
    pub open spec fn selected_assignee(self) -> Option<Seq<char>> {
        if self.selected < self.issues@.len() {
            display_of(self.issues@[self.selected as int].fields.assignee)
        } else {
            None
        }
    }

    /// The display name of the reporter of the selected issue.
    pub open spec fn selected_reporter(self) -> Option<Seq<char>> {
        if self.selected < self.issues@.len() {
            display_of(self.issues@[self.selected as int].fields.reporter)
        } else {
            None
        }
    }

    /// A fresh state: the first issue selected, nothing scrolled, the query
    /// for the user's own issues, the issue list taking the keys.
    pub fn new(issues: Vec<Issue>, jira: JiraClient) -> (res: Self)
        ensures
            res.issues == issues,
            res.selected == 0,
            res.list_offset == 0,
            res.desc_scroll == 0,
            res.jql@ == "assignee = currentUser() ORDER BY updated DESC"@,
            res.jql_cursor == 0,
            !res.editing_jql,
            res.jira == jira,
            res.focus == Focus::Issues,
            !res.show_help,
    {
        AppState {
            issues,
            selected: 0,
            list_offset: 0,
            desc_scroll: 0,
            jql: String::from_str("assignee = currentUser() ORDER BY updated DESC"),
            jql_cursor: 0,
            editing_jql: false,
            jira,
            focus: Focus::Issues,
            show_help: false,
        }
    }

    /// Inserts `c` into the query at the cursor, a byte offset that must
    /// fall between characters, and moves the cursor one byte on. The
    /// query's UTF-8 length stays below `usize::MAX`, as a `String` can hold
    /// no more than `isize::MAX` bytes.
    pub fn jql_insert(&mut self, c: char)
        requires
            is_boundary(old(self).jql@, old(self).jql_cursor as int),
            utf8_len(old(self).jql@) < usize::MAX,
        ensures
            final(self).jql@ == inserted_at(old(self).jql@, old(self).jql_cursor as int, c),
            final(self).jql_cursor == old(self).jql_cursor + 1,
            final(self).issues == old(self).issues,
            final(self).selected == old(self).selected,
            final(self).desc_scroll == old(self).desc_scroll,
            final(self).list_offset == old(self).list_offset,
            final(self).editing_jql == old(self).editing_jql,
            final(self).jira == old(self).jira,
            final(self).focus == old(self).focus,
            final(self).show_help == old(self).show_help,
    {
        let chars = to_chars(self.jql.as_str());
        let k = char_index_of(&chars, self.jql_cursor);
        proof {
            lemma_prefix_len_bound(chars@, k as int);
        }
        let mut out: Vec<char> = Vec::new();
        let n = chars.len();
        for i in 0..k
            invariant
                k <= n,
                n == chars@.len(),
                out@ == chars@.take(i as int),
        {
            out.push(chars[i]);
            assert(chars@.take(i + 1) =~= chars@.take(i as int).push(chars@[i as int]));
        }
        out.push(c);
        let ghost front = out@;
        for i in k..n
            invariant
                k <= n,
                n == chars@.len(),
                front == chars@.take(k as int).push(c),
                out@ == front + chars@.subrange(k as int, i as int),
        {
            out.push(chars[i]);
            assert(chars@.subrange(k as int, i + 1) =~= chars@.subrange(k as int, i as int).push(
                chars@[i as int],
            ));
        }
        assert(chars@.subrange(k as int, n as int) =~= chars@.skip(k as int));
        self.jql = from_chars(&out);
        self.jql_cursor = self.jql_cursor + 1;
    }

    /// Deletes the character before the cursor, moving the cursor one byte
    /// back; nothing happens when the cursor is at the start. The byte
    /// before the cursor must begin a character.
    pub fn jql_backspace(&mut self)
        requires
            old(self).jql_cursor > 0 ==> is_boundary(
                old(self).jql@,
                old(self).jql_cursor - 1,
            ),
            old(self).jql_cursor > 0 ==> old(self).jql_cursor - 1 < utf8_len(old(self).jql@),
        ensures
            old(self).jql_cursor == 0 ==> final(self).jql@ == old(self).jql@
                && final(self).jql_cursor == 0,
            old(self).jql_cursor > 0 ==> final(self).jql@ == removed_at(
                old(self).jql@,
                old(self).jql_cursor - 1,
            ) && final(self).jql_cursor == old(self).jql_cursor - 1,
            final(self).issues == old(self).issues,
            final(self).selected == old(self).selected,
            final(self).desc_scroll == old(self).desc_scroll,
            final(self).list_offset == old(self).list_offset,
            final(self).editing_jql == old(self).editing_jql,
            final(self).jira == old(self).jira,
            final(self).focus == old(self).focus,
            final(self).show_help == old(self).show_help,
    {
        if self.jql_cursor > 0 {
            self.jql_cursor = self.jql_cursor - 1;
            let chars = to_chars(self.jql.as_str());
            let k = char_index_of(&chars, self.jql_cursor);
            let n = chars.len();
            proof {
                if k == n {
                    assert(chars@.take(n as int) =~= chars@);
                }
            }
            let mut out: Vec<char> = Vec::new();
            for i in 0..k
                invariant
                    k < n,
                    n == chars@.len(),
                    out@ == chars@.take(i as int),
            {
                out.push(chars[i]);
                assert(chars@.take(i + 1) =~= chars@.take(i as int).push(chars@[i as int]));
            }
            let ghost front = out@;
            for i in k + 1..n
                invariant
                    k < n,
                    n == chars@.len(),
                    front == chars@.take(k as int),
                    out@ == front + chars@.subrange(k + 1, i as int),
            {
                out.push(chars[i]);
                assert(chars@.subrange(k + 1, i + 1) =~= chars@.subrange(k + 1, i as int).push(
                    chars@[i as int],
                ));
            }
            assert(chars@.subrange(k + 1, n as int) =~= chars@.skip(k + 1));
            self.jql = from_chars(&out);
        }
    }

    /// Selects the next issue, if there is one below.
    pub fn next(&mut self)
        requires
            old(self).selected < usize::MAX,
        ensures
            final(self).selected == next_selected(
                old(self).selected as int,
                old(self).issues@.len() as int,
            ),
            final(self).issues == old(self).issues,
            final(self).list_offset == old(self).list_offset,
            final(self).desc_scroll == old(self).desc_scroll,
            final(self).jql@ == old(self).jql@,
            final(self).jql_cursor == old(self).jql_cursor,
            final(self).editing_jql == old(self).editing_jql,
            final(self).jira == old(self).jira,
            final(self).focus == old(self).focus,
            final(self).show_help == old(self).show_help,
    {
        if self.selected + 1 < self.issues.len() {
            self.selected = self.selected + 1;
        }
    }

    /// Selects the previous issue, if there is one above.
    pub fn prev(&mut self)
        ensures
            final(self).selected == prev_selected(old(self).selected as int),
            final(self).issues == old(self).issues,
            final(self).list_offset == old(self).list_offset,
            final(self).desc_scroll == old(self).desc_scroll,
            final(self).jql@ == old(self).jql@,
            final(self).jql_cursor == old(self).jql_cursor,
            final(self).editing_jql == old(self).editing_jql,
            final(self).jira == old(self).jira,
            final(self).focus == old(self).focus,
            final(self).show_help == old(self).show_help,
    {
        if self.selected > 0 {
            self.selected = self.selected - 1;
        }
    }

    /// Scrolls the list so that the selection is among the `viewport`
    /// issues shown, and no further than the end allows.
    pub fn ensure_visible(&mut self, viewport: usize)
        requires
            scroll_fits(
                old(self).issues@.len() as int,
                old(self).selected as int,
                old(self).list_offset as int,
                viewport as int,
            ),
        ensures
            final(self).list_offset == scrolled_offset(
                old(self).issues@.len() as int,
                old(self).selected as int,
                old(self).list_offset as int,
                viewport as int,
            ),
            final(self).issues == old(self).issues,
            final(self).selected == old(self).selected,
            final(self).desc_scroll == old(self).desc_scroll,
            final(self).jql@ == old(self).jql@,
            final(self).jql_cursor == old(self).jql_cursor,
            final(self).editing_jql == old(self).editing_jql,
            final(self).jira == old(self).jira,
            final(self).focus == old(self).focus,
            final(self).show_help == old(self).show_help,
    {
        if self.issues.len() == 0 {
            return;
        }
        if self.selected < self.list_offset {
            self.list_offset = self.selected;
        }
        if self.selected >= self.list_offset + viewport {
            self.list_offset = self.selected - viewport + 1;
        }
        let max_offset = if self.issues.len() >= viewport {
            self.issues.len() - viewport
        } else {
            0
        };
        if self.list_offset > max_offset {
            self.list_offset = max_offset;
        }
    }

    /// Scrolls the list so that the selection is among the `viewport`
    /// issues shown, and no further than the end allows.
    pub fn update_list_scroll(&mut self, viewport: usize)
        requires
            scroll_fits(
                old(self).issues@.len() as int,
                old(self).selected as int,
                old(self).list_offset as int,
                viewport as int,
            ),
        ensures
            final(self).list_offset == scrolled_offset(
                old(self).issues@.len() as int,
                old(self).selected as int,
                old(self).list_offset as int,
                viewport as int,
            ),
            final(self).issues == old(self).issues,
            final(self).selected == old(self).selected,
            final(self).desc_scroll == old(self).desc_scroll,
            final(self).jql@ == old(self).jql@,
            final(self).jql_cursor == old(self).jql_cursor,
            final(self).editing_jql == old(self).editing_jql,
            final(self).jira == old(self).jira,
            final(self).focus == old(self).focus,
            final(self).show_help == old(self).show_help,
    {
        if self.issues.len() == 0 {
            return;
        }
        if self.selected < self.list_offset {
            self.list_offset = self.selected;
        }
        if self.selected >= self.list_offset + viewport {
            self.list_offset = self.selected - viewport + 1;
        }
        let max_offset = if self.issues.len() >= viewport {
            self.issues.len() - viewport
        } else {
            0
        };
        if max_offset < self.list_offset {
            self.list_offset = max_offset;
        }
    }

    /// The selected issue, if the selection points at one.
    pub fn selected(&self) -> (res: Option<&Issue>)
        ensures
            self.selected < self.issues@.len() ==> res == Some(&self.issues@[self.selected as int]),
            self.selected >= self.issues@.len() ==> res is None,
    {
        if self.selected < self.issues.len() {
            Some(&self.issues[self.selected])
        } else {
            None
        }
    }

    /// The display name of the assignee of the selected issue.
    pub fn assignee(&self) -> (res: Option<&str>)
        ensures
            (match res {
                Some(n) => Some(n@),
                None => None,
            }) == self.selected_assignee(),
    {
        match self.selected() {
            Some(issue) => match &issue.fields.assignee {
                Some(u) => match &u.display_name {
                    Some(n) => Some(n.as_str()),
                    None => None,
                },
                None => None,
            },
            None => None,
        }
    }

    /// The display name of the reporter of the selected issue.
    pub fn reporter(&self) -> (res: Option<&str>)
        ensures
            (match res {
                Some(n) => Some(n@),
                None => None,
            }) == self.selected_reporter(),
    {
        match self.selected() {
            Some(issue) => match &issue.fields.reporter {
                Some(u) => match &u.display_name {
                    Some(n) => Some(n.as_str()),
                    None => None,
                },
                None => None,
            },
            None => None,
        }
    }
}

/// Shows a new list of issues from the top: the first selected, nothing
/// scrolled.
pub fn reload_issues(state: &mut AppState, issues: Vec<Issue>)
    ensures
        final(state).issues == issues,
        final(state).selected == 0,
        final(state).list_offset == 0,
        final(state).desc_scroll == 0,
        final(state).jql@ == old(state).jql@,
        final(state).jql_cursor == old(state).jql_cursor,
        final(state).editing_jql == old(state).editing_jql,
        final(state).jira == old(state).jira,
        final(state).focus == old(state).focus,
        final(state).show_help == old(state).show_help,
{
    state.issues = issues;
    state.selected = 0;
    state.list_offset = 0;
    state.desc_scroll = 0;
}

/// Deleting right after inserting gives the query and its cursor back: the
/// backspace that follows an insertion is always allowed, and it removes
/// the inserted character.
pub proof fn insert_then_backspace(s: Seq<char>, b: int, c: char)
    requires
        is_boundary(s, b),
    ensures
        is_boundary(inserted_at(s, b, c), b),
        b < utf8_len(inserted_at(s, b, c)),
        removed_at(inserted_at(s, b, c), b) == s,
{
    let k = char_index(s, b);
    let t = inserted_at(s, b, c);
    assert(t.take(k) =~= s.take(k));
    lemma_char_index_unique(t, k);
    assert(utf8_len(t.take(k)) == utf8_len(s.take(k)));
    assert(char_index(t, b) == k);
    lemma_encode_concat(s.take(k), seq![c]);
    lemma_scalar_len(c);
    assert(t.take(k + 1) =~= s.take(k) + seq![c]);
    lemma_prefix_len_bound(t, k + 1);
    assert(t.take(k) + t.skip(k + 1) =~= s);
}

/// Scrolling keeps the selection in view and the list within its end: with
/// a list that is not empty, room for at least one issue and a selection
/// that points at an issue, the first shown issue is at most the selected
/// one, the selected one is among the `viewport` shown, and no scroll goes
/// past the last full page.
pub proof fn scroll_keeps_selection_visible(len: int, selected: int, offset: int, viewport: int)
    requires
        0 <= selected < len,
        0 <= offset,
        viewport > 0,
    ensures
        scrolled_offset(len, selected, offset, viewport) <= selected,
        selected < scrolled_offset(len, selected, offset, viewport) + viewport,
        scrolled_offset(len, selected, offset, viewport) <= if len >= viewport {
            len - viewport
        } else {
            0
        },
        0 <= scrolled_offset(len, selected, offset, viewport),
{
}

/// Scrolling leaves the list where it is when it is empty, or when it
/// already shows the selection and stays within the last full page.
pub proof fn scroll_leaves_visible_alone(len: int, selected: int, offset: int, viewport: int)
    requires
        0 <= offset,
        len == 0 || (offset <= selected < offset + viewport && offset <= (if len >= viewport {
            len - viewport
        } else {
            0
        })),
    ensures
        scrolled_offset(len, selected, offset, viewport) == offset,
{
}

/// Moving down and then up comes back to where it started when there was
/// an issue below; moving up and then down does when there was one above.
/// Both keep a selection inside the list.
pub proof fn next_prev_inverse(selected: int, len: int)
    requires
        0 <= selected < len,
    ensures
        selected + 1 < len ==> prev_selected(next_selected(selected, len)) == selected,
        selected > 0 ==> next_selected(prev_selected(selected), len) == selected,
        0 <= next_selected(selected, len) < len,
        0 <= prev_selected(selected) < len,
{
}

} // verus!
