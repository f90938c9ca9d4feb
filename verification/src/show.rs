use vstd::prelude::*;
use vstd::string::StringExecFns;
use crate::text::{concat2, concat3, repeat_char, texts};

verus! {

/// An issue at the other end of a link: its key when it has one as text,
/// and its summary as the server's JSON prints it.
pub struct LinkedIssue {
    pub key: Option<String>,
    pub summary: String,
}

/// A link between issues: the name of its type when it has one as text,
/// and the issue it leads to, outward or inward, when that is an object.
pub struct IssueLink {
    pub link_kind: Option<String>,
    pub outward: Option<LinkedIssue>,
    pub inward: Option<LinkedIssue>,
}

/// What the full view of a ticket reads of the issue that the server sent.
/// `key` and `summary` are the JSON values as they print; the other texts
/// are present when the server sent them as strings. `assignee` is `None`
/// when the assignee is not an object, else its display name if that is a
/// string. A list is `None` when the server did not send an array; an
/// entry of `components` or `labels` is the name or label when it is a
/// string.
pub struct IssueDetails {
    pub key: String,
    pub summary: String,
    pub issue_type: Option<String>,
    pub status: Option<String>,
    pub assignee: Option<Option<String>>,
    pub reporter: Option<String>,
    pub priority: Option<String>,
    pub project: Option<String>,
    pub created: Option<String>,
    pub updated: Option<String>,
    pub due_date: Option<String>,
    pub description: Option<String>,
    pub components: Option<Vec<Option<String>>>,
    pub labels: Option<Vec<Option<String>>>,
    pub links: Option<Vec<IssueLink>>,
}

/// `n` copies of `c`.
pub open spec fn rule(c: char, n: nat) -> Seq<char> {
    Seq::new(n, |_i: int| c)
}

/// The line that opens a section of the view.
pub open spec fn section_rule() -> Seq<char> {
    "\n"@ + rule('-', 80)
}

/// The heading of the view: key and summary, then a double rule.
pub open spec fn header_lines(key: Seq<char>, summary: Seq<char>) -> Seq<Seq<char>> {
    seq!["\n"@ + key + ": "@ + summary, rule('=', 80) + "\n"@]
}

/// A line `prefix` and value when there is a value.
pub open spec fn opt_line(prefix: Seq<char>, value: Option<String>) -> Seq<Seq<char>> {
    match value {
        Some(v) => seq![prefix + v@],
        None => Seq::empty(),
    }
}

/// The line about the assignee.
pub open spec fn assignee_lines(assignee: Option<Option<String>>) -> Seq<Seq<char>> {
    match assignee {
        None => seq!["Assignee: unassigned"@],
        Some(Some(n)) => seq!["Assignee: "@ + n@],
        Some(None) => Seq::empty(),
    }
}

/// The section of a description that is not empty.
pub open spec fn description_lines(description: Option<String>) -> Seq<Seq<char>> {
    match description {
        Some(d) => if d@.len() > 0 {
            seq![section_rule(), "Description:\n"@, d@]
        } else {
            Seq::empty()
        },
        None => Seq::empty(),
    }
}

/// A bullet line for each entry that is a text.
pub open spec fn bullets(items: Seq<Option<String>>) -> Seq<Seq<char>>
    decreases items.len(),
{
    if items.len() == 0 {
        Seq::empty()
    } else {
        bullets(items.drop_last()) + match items.last() {
            Some(s) => seq!["  • "@ + s@],
            None => Seq::empty(),
        }
    }
}

/// A titled section of bullets for a list that is not empty.
pub open spec fn list_section(title: Seq<char>, items: Option<Vec<Option<String>>>) -> Seq<
    Seq<char>,
> {
    match items {
        Some(v) => if v@.len() > 0 {
            seq![section_rule(), title] + bullets(v@)
        } else {
            Seq::empty()
        },
        None => Seq::empty(),
    }
}

/// The line of a link: outward when it leads outward, else inward.
pub open spec fn link_lines(link: IssueLink) -> Seq<Seq<char>> {
    match link.link_kind {
        Some(t) => match link.outward {
            Some(o) => match o.key {
                Some(k) => seq!["  "@ + t@ + " -> "@ + k@ + " "@ + o.summary@],
                None => Seq::empty(),
            },
            None => match link.inward {
                Some(i) => match i.key {
                    Some(k) => seq!["  "@ + t@ + " <- "@ + k@ + " "@ + i.summary@],
                    None => Seq::empty(),
                },
                None => Seq::empty(),
            },
        },
        None => Seq::empty(),
    }
}

/// The lines of all links.
pub open spec fn links_lines(links: Seq<IssueLink>) -> Seq<Seq<char>>
    decreases links.len(),
{
    if links.len() == 0 {
        Seq::empty()
    } else {
        links_lines(links.drop_last()) + link_lines(links.last())
    }
}

/// The section of related issues, for a list of links that is not empty.
pub open spec fn links_section(links: Option<Vec<IssueLink>>) -> Seq<Seq<char>> {
    match links {
        Some(v) => if v@.len() > 0 {
            seq![section_rule(), "Related Issues:"@] + links_lines(v@)
        } else {
            Seq::empty()
        },
        None => Seq::empty(),
    }
}

/// The closing rule of the view.
pub open spec fn footer_lines() -> Seq<Seq<char>> {
    seq!["\n"@ + rule('=', 80) + "\n"@]
}

/// All lines of the full view of a ticket, in the order they print.
pub open spec fn show_text(d: IssueDetails) -> Seq<Seq<char>> {
    header_lines(d.key@, d.summary@) + opt_line("Type: "@, d.issue_type) + opt_line(
        "Status: "@,
        d.status,
    ) + assignee_lines(d.assignee) + opt_line("Reporter: "@, d.reporter) + opt_line(
        "Priority: "@,
        d.priority,
    ) + opt_line("Project: "@, d.project) + opt_line("Created: "@, d.created) + opt_line(
        "Updated: "@,
        d.updated,
    ) + opt_line("Due Date: "@, d.due_date) + description_lines(d.description) + list_section(
        "Components:"@,
        d.components,
    ) + list_section("Labels:"@, d.labels) + links_section(d.links) + footer_lines()
}

/// The line of a label or component in the view, when it is a text.
pub open spec fn bullet_of(o: Option<String>) -> Option<Seq<char>> {
    match o {
        Some(l) => Some("  • "@ + l@),
        None => None,
    }
}

proof fn lemma_bullets_filter_map(items: Seq<Option<String>>)
    ensures
        bullets(items) == items.filter_map(|o: Option<String>| bullet_of(o)),
    decreases items.len(),
{
    if items.len() > 0 {
        lemma_bullets_filter_map(items.drop_last());
    }
}

/// A view with labels shows them, after everything else (components
/// included) and just before the related issues and the closing rule: the
/// section rule, the line `Labels:`, then one bullet line per label that is
/// a text, in order.
pub proof fn labels_section_shown(d: IssueDetails)
    requires
        d.labels matches Some(v) && v@.len() > 0,
        d.links is None,
    ensures
        show_text(d) == show_text(IssueDetails { labels: None, ..d }).drop_last() + seq![
            "\n"@ + Seq::new(80, |_i: int| '-'),
            "Labels:"@,
        ] + d.labels->0@.filter_map(
            |o: Option<String>|
                match o {
                    Some(l) => Some("  • "@ + l@),
                    None => None,
                },
        ) + seq!["\n"@ + Seq::new(80, |_i: int| '=') + "\n"@],
{
    let v = d.labels->0;
    lemma_bullets_filter_map(v@);
    let f1 = |o: Option<String>| bullet_of(o);
    let f2 = |o: Option<String>|
        match o {
            Some(l) => Some("  • "@ + l@),
            None => None,
        };
    assert(f1 =~= f2);
    let d0 = IssueDetails { labels: None, ..d };
    let base = header_lines(d.key@, d.summary@) + opt_line("Type: "@, d.issue_type) + opt_line(
        "Status: "@,
        d.status,
    ) + assignee_lines(d.assignee) + opt_line("Reporter: "@, d.reporter) + opt_line(
        "Priority: "@,
        d.priority,
    ) + opt_line("Project: "@, d.project) + opt_line("Created: "@, d.created) + opt_line(
        "Updated: "@,
        d.updated,
    ) + opt_line("Due Date: "@, d.due_date) + description_lines(d.description) + list_section(
        "Components:"@,
        d.components,
    );
    assert(rule('-', 80) =~= Seq::new(80, |_i: int| '-'));
    assert(rule('=', 80) =~= Seq::new(80, |_i: int| '='));
    assert(links_section(d.links) =~= Seq::<Seq<char>>::empty());
    assert(show_text(d0) =~= base + footer_lines());
    assert((base + footer_lines()).drop_last() =~= base);
    assert(show_text(d) =~= base + (seq![section_rule(), "Labels:"@] + bullets(v@))
        + footer_lines());
}

/// Related issues only add lines just before the closing rule: the view
/// with links is the view without them, with some lines put in before its
/// last line.
pub proof fn links_come_last(d: IssueDetails)
    ensures
        exists|x: Seq<Seq<char>>|
            show_text(d) == show_text(IssueDetails { links: None, ..d }).drop_last() + x + seq![
                "\n"@ + Seq::new(80, |_i: int| '=') + "\n"@,
            ],
{
    let d0 = IssueDetails { links: None, ..d };
    let base = header_lines(d.key@, d.summary@) + opt_line("Type: "@, d.issue_type) + opt_line(
        "Status: "@,
        d.status,
    ) + assignee_lines(d.assignee) + opt_line("Reporter: "@, d.reporter) + opt_line(
        "Priority: "@,
        d.priority,
    ) + opt_line("Project: "@, d.project) + opt_line("Created: "@, d.created) + opt_line(
        "Updated: "@,
        d.updated,
    ) + opt_line("Due Date: "@, d.due_date) + description_lines(d.description) + list_section(
        "Components:"@,
        d.components,
    ) + list_section("Labels:"@, d.labels);
    assert(rule('=', 80) =~= Seq::new(80, |_i: int| '='));
    assert(links_section(d0.links) =~= Seq::<Seq<char>>::empty());
    assert(show_text(d0) =~= base + footer_lines());
    assert((base + footer_lines()).drop_last() =~= base);
    let x = links_section(d.links);
    assert(show_text(d) =~= base + x + footer_lines());
}

/// Appends the lines of `part` to `out`.
fn extend(out: &mut Vec<String>, part: Vec<String>)
    ensures
        texts(final(out)@) == texts(old(out)@) + texts(part@),
{
    let ghost p = part@;
    let ghost before = out@;
    let mut part = part;
    out.append(&mut part);
    assert(texts(out@) =~= texts(before) + texts(p));
}

fn one_line(s: String) -> (res: Vec<String>)
    ensures
        texts(res@) == seq![s@],
{
    let mut v = Vec::new();
    v.push(s);
    assert(texts(v@) =~= seq![s@]);
    v
}

fn no_lines() -> (res: Vec<String>)
    ensures
        texts(res@) == Seq::<Seq<char>>::empty(),
{
    let v: Vec<String> = Vec::new();
    assert(texts(v@) =~= Seq::<Seq<char>>::empty());
    v
}

fn opt_line_exec(prefix: &str, value: &Option<String>) -> (res: Vec<String>)
    ensures
        texts(res@) == opt_line(prefix@, *value),
{
    match value {
        Some(v) => one_line(concat2(prefix, v.as_str())),
        None => no_lines(),
    }
}

fn section_rule_exec() -> (res: String)
    ensures
        res@ == section_rule(),
{
    let dashes = repeat_char('-', 80);
    concat2("\n", dashes.as_str())
}

fn header_exec(key: &str, summary: &str) -> (res: Vec<String>)
    ensures
        texts(res@) == header_lines(key@, summary@),
{
    let mut first = concat3("\n", key, ": ");
    first.append(summary);
    let equals = repeat_char('=', 80);
    let second = concat2(equals.as_str(), "\n");
    let mut v = Vec::new();
    v.push(first);
    v.push(second);
    assert(texts(v@) =~= header_lines(key@, summary@));
    v
}

fn assignee_exec(assignee: &Option<Option<String>>) -> (res: Vec<String>)
    ensures
        texts(res@) == assignee_lines(*assignee),
{
    match assignee {
        None => one_line(String::from_str("Assignee: unassigned")),
        Some(Some(n)) => one_line(concat2("Assignee: ", n.as_str())),
        Some(None) => no_lines(),
    }
}

fn description_exec(description: &Option<String>) -> (res: Vec<String>)
    ensures
        texts(res@) == description_lines(*description),
{
    match description {
        Some(d) => {
            if d.as_str().is_empty() {
                no_lines()
            } else {
                let mut v = Vec::new();
                v.push(section_rule_exec());
                v.push(String::from_str("Description:\n"));
                v.push(d.clone());
                assert(texts(v@) =~= description_lines(*description));
                v
            }
        },
        None => no_lines(),
    }
}

fn bullets_exec(items: &Vec<Option<String>>) -> (res: Vec<String>)
    ensures
        texts(res@) == bullets(items@),
{
    let mut out = no_lines();
    let n = items.len();
    for i in 0..n
        invariant
            n == items@.len(),
            texts(out@) == bullets(items@.take(i as int)),
    {
        let ghost prev = items@.take(i as int);
        assert(items@.take(i + 1).drop_last() =~= prev);
        assert(items@.take(i + 1).last() == items@[i as int]);
        match &items[i] {
            Some(s) => extend(&mut out, one_line(concat2("  • ", s.as_str()))),
            None => {
                assert(bullets(items@.take(i + 1)) =~= bullets(prev));
            },
        }
    }
    assert(items@.take(n as int) =~= items@);
    out
}

fn list_section_exec(title: &str, items: &Option<Vec<Option<String>>>) -> (res: Vec<String>)
    ensures
        texts(res@) == list_section(title@, *items),
{
    match items {
        Some(v) => {
            if v.len() == 0 {
                no_lines()
            } else {
                let mut out = Vec::new();
                out.push(section_rule_exec());
                out.push(String::from_str(title));
                assert(texts(out@) =~= seq![section_rule(), title@]);
                extend(&mut out, bullets_exec(v));
                out
            }
        },
        None => no_lines(),
    }
}

fn link_exec(link: &IssueLink) -> (res: Vec<String>)
    ensures
        texts(res@) == link_lines(*link),
{
    match &link.link_kind {
        Some(t) => match &link.outward {
            Some(o) => match &o.key {
                Some(k) => {
                    let mut s = concat3("  ", t.as_str(), " -> ");
                    s.append(k.as_str());
                    s.append(" ");
                    s.append(o.summary.as_str());
                    one_line(s)
                },
                None => no_lines(),
            },
            None => match &link.inward {
                Some(i) => match &i.key {
                    Some(k) => {
                        let mut s = concat3("  ", t.as_str(), " <- ");
                        s.append(k.as_str());
                        s.append(" ");
                        s.append(i.summary.as_str());
                        one_line(s)
                    },
                    None => no_lines(),
                },
                None => no_lines(),
            },
        },
        None => no_lines(),
    }
}

fn links_section_exec(links: &Option<Vec<IssueLink>>) -> (res: Vec<String>)
    ensures
        texts(res@) == links_section(*links),
{
    match links {
        Some(v) => {
            if v.len() == 0 {
                no_lines()
            } else {
                let mut out = Vec::new();
                out.push(section_rule_exec());
                out.push(String::from_str("Related Issues:"));
                assert(texts(out@) =~= seq![section_rule(), "Related Issues:"@]);
                let ghost start = texts(out@);
                let n = v.len();
                for i in 0..n
                    invariant
                        n == v@.len(),
                        start == seq![section_rule(), "Related Issues:"@],
                        texts(out@) == start + links_lines(v@.take(i as int)),
                {
                    assert(v@.take(i + 1).drop_last() =~= v@.take(i as int));
                    assert(v@.take(i + 1).last() == v@[i as int]);
                    let ghost before = texts(out@);
                    extend(&mut out, link_exec(&v[i]));
                    assert(texts(out@) =~= start + links_lines(v@.take(i + 1)));
                }
                assert(v@.take(n as int) =~= v@);
                out
            }
        },
        None => no_lines(),
    }
}

/// The lines of the full view of a ticket, in the order they print.
pub fn show_lines(d: &IssueDetails) -> (res: Vec<String>)
    ensures
        texts(res@) == show_text(*d),
{
    let mut out = header_exec(d.key.as_str(), d.summary.as_str());
    extend(&mut out, opt_line_exec("Type: ", &d.issue_type));
    extend(&mut out, opt_line_exec("Status: ", &d.status));
    extend(&mut out, assignee_exec(&d.assignee));
    extend(&mut out, opt_line_exec("Reporter: ", &d.reporter));
    extend(&mut out, opt_line_exec("Priority: ", &d.priority));
    extend(&mut out, opt_line_exec("Project: ", &d.project));
    extend(&mut out, opt_line_exec("Created: ", &d.created));
    extend(&mut out, opt_line_exec("Updated: ", &d.updated));
    extend(&mut out, opt_line_exec("Due Date: ", &d.due_date));
    extend(&mut out, description_exec(&d.description));
    extend(&mut out, list_section_exec("Components:", &d.components));
    extend(&mut out, list_section_exec("Labels:", &d.labels));
    extend(&mut out, links_section_exec(&d.links));
    let equals = repeat_char('=', 80);
    let mut last = concat2("\n", equals.as_str());
    last.append("\n");
    extend(&mut out, one_line(last));
    out
}

} // verus!
