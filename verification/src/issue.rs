use vstd::prelude::*;
use vstd::string::StringExecFns;
use crate::text::concat3;

verus! {

/// A person as Jira shows one.
pub struct User {
    pub display_name: Option<String>,
    pub name: Option<String>,
    pub email_address: Option<String>,
}

/// The workflow status of an issue.
pub struct Status {
    pub name: String,
}

/// The fields of an issue that the terminal interface shows.
pub struct Fields {
    pub summary: String,
    pub description: Option<String>,
    pub status: Status,
    pub assignee: Option<User>,
    pub reporter: Option<User>,
}

/// An issue of the terminal interface.
pub struct Issue {
    pub key: String,
    pub fields: Fields,
}

/// The text of a possible string.
pub open spec fn opt_view(v: Option<String>) -> Option<Seq<char>> {
    match v {
        Some(s) => Some(s@),
        None => None,
    }
}

/// Whether `user` is a person known by display name alone.
pub open spec fn is_named_user(user: Option<User>, display: Seq<char>) -> bool {
    &&& user is Some
    &&& opt_view(user->0.display_name) == Some(display)
    &&& user->0.name is None
    &&& user->0.email_address is None
}

/// Whether `issue` holds the given data, with people known by display name
/// alone.
pub open spec fn issue_is(
    issue: Issue,
    key: Seq<char>,
    summary: Seq<char>,
    description: Seq<char>,
    status: Seq<char>,
    assignee: Option<Seq<char>>,
    reporter: Seq<char>,
) -> bool {
    &&& issue.key@ == key
    &&& issue.fields.summary@ == summary
    &&& opt_view(issue.fields.description) == Some(description)
    &&& issue.fields.status.name@ == status
    &&& match assignee {
        Some(a) => is_named_user(issue.fields.assignee, a),
        None => issue.fields.assignee is None,
    }
    &&& is_named_user(issue.fields.reporter, reporter)
}

fn named_user(display: &str) -> (res: User)
    ensures
        is_named_user(Some(res), display@),
{
    User { display_name: Some(String::from_str(display)), name: None, email_address: None }
}

fn make_issue(
    key: &str,
    summary: &str,
    description: &str,
    status: &str,
    assignee: Option<&str>,
    reporter: &str,
) -> (res: Issue)
    ensures
        issue_is(
            res,
            key@,
            summary@,
            description@,
            status@,
            match assignee {
                Some(a) => Some(a@),
                None => None,
            },
            reporter@,
        ),
{
    let assignee = match assignee {
        Some(a) => Some(named_user(a)),
        None => None,
    };
    Issue {
        key: String::from_str(key),
        fields: Fields {
            summary: String::from_str(summary),
            description: Some(String::from_str(description)),
            status: Status { name: String::from_str(status) },
            assignee,
            reporter: Some(named_user(reporter)),
        },
    }
}

/// The five sample issues that the terminal interface shows without a
/// server.
pub fn mock_issues() -> (res: Vec<Issue>)
    ensures
        res@.len() == 5,
        issue_is(
            res@[0],
            "PROJ-101"@,
            "Implement user authentication"@,
            "Add login and logout functionality with JWT tokens"@,
            "In Progress"@,
            Some("John Doe"@),
            "Jane Smith"@,
        ),
        issue_is(
            res@[1],
            "PROJ-102"@,
            "Fix navigation bug on mobile"@,
            "The hamburger menu doesn't close when clicking outside"@,
            "To Do"@,
            Some("Alice Johnson"@),
            "Bob Wilson"@,
        ),
        issue_is(
            res@[2],
            "PROJ-103"@,
            "Add dark mode support"@,
            "Implement theme switching with system preference detection"@,
            "Done"@,
            Some("John Doe"@),
            "Jane Smith"@,
        ),
        issue_is(
            res@[3],
            "PROJ-104"@,
            "Update dependencies"@,
            "Upgrade all npm packages to latest versions"@,
            "In Progress"@,
            Some("Charlie Brown"@),
            "John Doe"@,
        ),
        issue_is(
            res@[4],
            "PROJ-105"@,
            "Write unit tests for API endpoints"@,
            "Add test coverage for all REST API endpoints"@,
            "To Do"@,
            None,
            "Alice Johnson"@,
        ),
{
    let mut v: Vec<Issue> = Vec::new();
    v.push(
        make_issue(
            "PROJ-101",
            "Implement user authentication",
            "Add login and logout functionality with JWT tokens",
            "In Progress",
            Some("John Doe"),
            "Jane Smith",
        ),
    );
    v.push(
        make_issue(
            "PROJ-102",
            "Fix navigation bug on mobile",
            "The hamburger menu doesn't close when clicking outside",
            "To Do",
            Some("Alice Johnson"),
            "Bob Wilson",
        ),
    );
    v.push(
        make_issue(
            "PROJ-103",
            "Add dark mode support",
            "Implement theme switching with system preference detection",
            "Done",
            Some("John Doe"),
            "Jane Smith",
        ),
    );
    v.push(
        make_issue(
            "PROJ-104",
            "Update dependencies",
            "Upgrade all npm packages to latest versions",
            "In Progress",
            Some("Charlie Brown"),
            "John Doe",
        ),
    );
    v.push(
        make_issue(
            "PROJ-105",
            "Write unit tests for API endpoints",
            "Add test coverage for all REST API endpoints",
            "To Do",
            None,
            "Alice Johnson",
        ),
    );
    v
}

/// The workflow status of a searched issue.
pub struct JiraStatus {
    pub name: String,
}

/// A component of a searched issue.
pub struct JiraComponent {
    pub name: String,
}

/// The fields of a searched issue that the command line reads.
pub struct JiraFields {
    pub summary: String,
    pub status: JiraStatus,
    pub components: Vec<JiraComponent>,
}

/// An issue found by a search of the command line.
pub struct JiraIssue {
    pub key: String,
    pub fields: JiraFields,
}

/// The answer of Jira to a search.
pub struct JiraSearchResponse {
    pub issues: Vec<JiraIssue>,
}

/// The line that lists an issue: key, status in brackets, summary.
pub open spec fn issue_line_text(key: Seq<char>, status: Seq<char>, summary: Seq<char>) -> Seq<
    char,
> {
    key + " ["@ + status + "] "@ + summary
}

/// The line that lists an issue.
pub fn issue_line(key: &str, status: &str, summary: &str) -> (res: String)
    ensures
        res@ == issue_line_text(key@, status@, summary@),
{
    let mut s = concat3(key, " [", status);
    s.append("] ");
    s.append(summary);
    s
}

/// The lines that list the issues of a search.
pub fn search_lines(resp: &JiraSearchResponse) -> (res: Vec<String>)
    ensures
        res@.len() == resp.issues@.len(),
        forall|i: int|
            0 <= i < res@.len() ==> #[trigger] res@[i]@ == issue_line_text(
                resp.issues@[i].key@,
                resp.issues@[i].fields.status.name@,
                resp.issues@[i].fields.summary@,
            ),
{
    let mut out: Vec<String> = Vec::new();
    let n = resp.issues.len();
    for i in 0..n
        invariant
            n == resp.issues@.len(),
            out@.len() == i,
            forall|j: int|
                0 <= j < i ==> #[trigger] out@[j]@ == issue_line_text(
                    resp.issues@[j].key@,
                    resp.issues@[j].fields.status.name@,
                    resp.issues@[j].fields.summary@,
                ),
    {
        let issue = &resp.issues[i];
        out.push(
            issue_line(
                issue.key.as_str(),
                issue.fields.status.name.as_str(),
                issue.fields.summary.as_str(),
            ),
        );
    }
    out
}

/// Key, status and summary of each cached issue; nothing when the cache
/// could not be loaded.
pub fn issues_from_cache(cached: Result<JiraSearchResponse, String>) -> (res: Vec<
    (String, String, String),
>)
    ensures
        match cached {
            Ok(resp) => res@.len() == resp.issues@.len() && forall|i: int|
                0 <= i < res@.len() ==> {
                    &&& (#[trigger] res@[i]).0@ == resp.issues@[i].key@
                    &&& res@[i].1@ == resp.issues@[i].fields.status.name@
                    &&& res@[i].2@ == resp.issues@[i].fields.summary@
                },
            Err(_) => res@.len() == 0,
        },
{
    match cached {
        Ok(resp) => {
            let mut out: Vec<(String, String, String)> = Vec::new();
            let n = resp.issues.len();
            for i in 0..n
                invariant
                    n == resp.issues@.len(),
                    out@.len() == i,
                    forall|j: int|
                        0 <= j < i ==> {
                            &&& (#[trigger] out@[j]).0@ == resp.issues@[j].key@
                            &&& out@[j].1@ == resp.issues@[j].fields.status.name@
                            &&& out@[j].2@ == resp.issues@[j].fields.summary@
                        },
            {
                let issue = &resp.issues[i];
                out.push(
                    (
                        issue.key.clone(),
                        issue.fields.status.name.clone(),
                        issue.fields.summary.clone(),
                    ),
                );
            }
            out
        },
        Err(_) => Vec::new(),
    }
}

} // verus!
