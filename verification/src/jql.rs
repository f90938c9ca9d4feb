use vstd::prelude::*;
use vstd::string::StringExecFns;
use crate::config::FileRead;
use crate::text::{concat3, decimal, decimal_string, texts};

verus! {

/// The query for the issues assigned to the current user, newest first.
pub fn mine_jql() -> (res: String)
    ensures
        res@ == "assignee = currentUser() ORDER BY updated DESC"@,
{
    String::from_str("assignee = currentUser() ORDER BY updated DESC")
}

/// The query for the issues assigned to the given users (a comma-separated
/// list), newest first.
pub fn from_jql(users: &str) -> (res: String)
    ensures
        res@ == "assignee in ("@ + users@ + ") ORDER BY updated DESC"@,
{
    concat3("assignee in (", users, ") ORDER BY updated DESC")
}

/// The query that a search runs: the given one, or the issues assigned to
/// the current user.
pub fn search_jql(jql: Option<String>) -> (res: String)
    ensures
        match jql {
            Some(q) => res@ == q@,
            None => res@ == "assignee = currentUser()"@,
        },
{
    match jql {
        Some(q) => q,
        None => String::from_str("assignee = currentUser()"),
    }
}

/// The upper-case form of a text, by the full Unicode case mapping that
/// `str::to_uppercase` applies.
pub uninterp spec fn uppercase(s: Seq<char>) -> Seq<char>;

/// `str::to_uppercase` from std.
#[verifier::external_body]
fn to_uppercase(s: &str) -> (res: String)
    ensures
        res@ == uppercase(s@),
{
    s.to_uppercase()
}

/// The query for the issues of a component, whose name is matched in upper
/// case, newest first.
pub fn component_jql(name: &str) -> (res: String)
    ensures
        res@ == "component = \""@ + uppercase(name@) + "\" ORDER BY updated DESC"@,
{
    let normalized = to_uppercase(name);
    concat3("component = \"", normalized.as_str(), "\" ORDER BY updated DESC")
}

/// How many queries the history keeps.
pub open spec fn history_limit() -> nat {
    50
}

/// The history once `jql` has been put in front of it and it has been cut
/// to its limit.
pub open spec fn recorded(history: Seq<Seq<char>>, jql: Seq<char>) -> Seq<Seq<char>> {
    let grown = seq![jql] + history;
    if grown.len() > history_limit() {
        grown.take(history_limit() as int)
    } else {
        grown
    }
}

/// The history after a query has run: unchanged when it already holds the
/// query, else with the query recorded in front.
pub open spec fn history_after(history: Seq<Seq<char>>, jql: Seq<char>) -> Seq<Seq<char>> {
    if history.contains(jql) {
        history
    } else {
        recorded(history, jql)
    }
}

/// Records a query in the JQL history: `None` when the history already
/// holds it (nothing is written then), else the new history, with the query
/// first and at most 50 entries.
pub fn record_jql(history: Vec<String>, jql: &str) -> (res: Option<Vec<String>>)
    ensures
        texts(history@).contains(jql@) ==> res is None,
        !texts(history@).contains(jql@) ==> (res matches Some(h) && texts(h@) == recorded(
            texts(history@),
            jql@,
        )),
{
    let entry = String::from_str(jql);
    let n = history.len();
    for i in 0..n
        invariant
            n == history@.len(),
            entry@ == jql@,
            forall|j: int| 0 <= j < i ==> history@[j]@ != jql@,
    {
        if history[i] == entry {
            assert(texts(history@)[i as int] == jql@);
            return None;
        }
    }
    assert(!texts(history@).contains(jql@)) by {
        if texts(history@).contains(jql@) {
            let j = choose|j: int| 0 <= j < texts(history@).len() && texts(history@)[j] == jql@;
            assert(history@[j]@ == jql@);
        }
    }
    let mut h = history;
    h.insert(0, entry);
    assert(texts(h@) =~= seq![jql@] + texts(history@));
    if h.len() > 50 {
        h.truncate(50);
        assert(texts(h@) =~= (seq![jql@] + texts(history@)).take(50));
    }
    Some(h)
}

/// A query run twice in a row changes the history once: after the first
/// run the history holds it, so the second leaves it as it is.
pub proof fn history_idempotent(history: Seq<Seq<char>>, jql: Seq<char>)
    ensures
        history_after(history_after(history, jql), jql) == history_after(history, jql),
{
    if !history.contains(jql) {
        assert(recorded(history, jql)[0] == jql);
    }
}

/// After a query has run, the history holds it; a query recorded anew
/// stands first.
pub proof fn history_holds_query(history: Seq<Seq<char>>, jql: Seq<char>)
    ensures
        history_after(history, jql).contains(jql),
        !history.contains(jql) ==> history_after(history, jql)[0] == jql,
{
    if !history.contains(jql) {
        assert(recorded(history, jql)[0] == jql);
    }
}

/// The history never grows past its limit, and a history without repeated
/// queries stays without them.
pub proof fn history_bounded_and_unique(history: Seq<Seq<char>>, jql: Seq<char>)
    ensures
        history.len() <= history_limit() ==> history_after(history, jql).len() <= history_limit(),
        history.no_duplicates() ==> history_after(history, jql).no_duplicates(),
{
    if !history.contains(jql) && history.no_duplicates() {
        let grown = seq![jql] + history;
        assert(grown.no_duplicates()) by {
            assert forall|a: int, b: int| 0 <= a < grown.len() && 0 <= b < grown.len() && a != b
                implies grown[a] != grown[b] by {
                if a == 0 && b > 0 {
                    assert(history[b - 1] == grown[b]);
                } else if b == 0 && a > 0 {
                    assert(history[a - 1] == grown[a]);
                } else if a > 0 && b > 0 {
                    assert(history[a - 1] == grown[a]);
                    assert(history[b - 1] == grown[b]);
                }
            }
        }
        if grown.len() > history_limit() {
            let t = grown.take(history_limit() as int);
            assert forall|a: int, b: int| 0 <= a < t.len() && 0 <= b < t.len() && a != b
                implies t[a] != t[b] by {
                assert(t[a] == grown[a]);
                assert(t[b] == grown[b]);
            }
        }
    }
}

/// The lines that list the history: `n: query` from 1 on, or a note when it
/// is empty.
pub open spec fn history_listing(history: Seq<Seq<char>>) -> Seq<Seq<char>> {
    if history.len() == 0 {
        seq!["No JQL history found"@]
    } else {
        Seq::new(history.len(), |i: int| decimal((i + 1) as nat) + ": "@ + history[i])
    }
}

/// The lines that list the JQL history.
pub fn history_lines(history: &Vec<String>) -> (res: Vec<String>)
    ensures
        texts(res@) == history_listing(texts(history@)),
{
    let mut out: Vec<String> = Vec::new();
    let n = history.len();
    if n == 0 {
        out.push(String::from_str("No JQL history found"));
        assert(texts(out@) =~= history_listing(texts(history@)));
        return out;
    }
    for i in 0..n
        invariant
            n == history@.len(),
            n > 0,
            texts(out@) =~= history_listing(texts(history@)).take(i as int),
    {
        let num = decimal_string(i + 1);
        let line = concat3(num.as_str(), ": ", history[i].as_str());
        let ghost old_out = out@;
        out.push(line);
        proof {
            let listing = history_listing(texts(history@));
            assert(texts(history@)[i as int] == history@[i as int]@);
            assert(listing[i as int] == decimal((i + 1) as nat) + ": "@ + history@[i as int]@);
            assert(texts(out@) =~= texts(old_out).push(line@));
            assert(listing.take(i + 1) =~= listing.take(i as int).push(listing[i as int]));
        }
    }
    assert(history_listing(texts(history@)).take(n as int) =~= history_listing(texts(history@)));
    out
}

/// The list of strings that a JSON text holds, when `serde_json` reads the
/// text as an array of strings; `None` when it does not.
pub uninterp spec fn json_strings(text: Seq<char>) -> Option<Seq<Seq<char>>>;

/// `serde_json::from_str::<Vec<String>>`, with a failure read as `None`.
#[verifier::external_body]
fn parse_json_strings(text: &str) -> (res: Option<Vec<String>>)
    ensures
        match json_strings(text@) {
            Some(h) => res matches Some(v) && texts(v@) == h,
            None => res is None,
        },
{
    serde_json::from_str::<Vec<String>>(text).ok()
}

/// The compact JSON array of strings that `serde_json` writes for a list.
pub uninterp spec fn strings_json(h: Seq<Seq<char>>) -> Seq<char>;

/// `serde_json::to_string` of a list of strings (which cannot fail for
/// strings; a failure would give the empty text).
#[verifier::external_body]
fn write_json_strings(h: &Vec<String>) -> (res: String)
    ensures
        res@ == strings_json(texts(h@)),
{
    serde_json::to_string(h).unwrap_or_default()
}

/// The history that the history file holds: the list it stores when it
/// could be read and holds a JSON array of strings, else nothing.
pub open spec fn stored_history(read: FileRead) -> Seq<Seq<char>> {
    match read {
        FileRead::Read(text) => match json_strings(text@) {
            Some(h) => h,
            None => Seq::empty(),
        },
        _ => Seq::empty(),
    }
}

/// The JQL history, from what reading the history file gave.
pub fn load_jql_history(read: FileRead) -> (res: Vec<String>)
    ensures
        texts(res@) == stored_history(read),
{
    match read {
        FileRead::Read(text) => match parse_json_strings(text.as_str()) {
            Some(v) => v,
            None => {
                let v: Vec<String> = Vec::new();
                assert(texts(v@) =~= Seq::<Seq<char>>::empty());
                v
            },
        },
        _ => {
            let v: Vec<String> = Vec::new();
            assert(texts(v@) =~= Seq::<Seq<char>>::empty());
            v
        },
    }
}

/// Records a query that has run, from what reading the history file gave:
/// `None` when the stored history already holds it (nothing is written),
/// else the text of the new history file.
pub fn save_jql_history(read: FileRead, jql: &str) -> (res: Option<String>)
    ensures
        stored_history(read).contains(jql@) ==> res is None,
        !stored_history(read).contains(jql@) ==> (res matches Some(t) && t@ == strings_json(
            recorded(stored_history(read), jql@),
        )),
{
    let history = load_jql_history(read);
    match record_jql(history, jql) {
        Some(h) => Some(write_json_strings(&h)),
        None => None,
    }
}

} // verus!
