use vstd::prelude::*;
use vstd::string::StringExecFns;
use vstd::utf8::encode_utf8;
use crate::config::Config;
use crate::status::{mock_transitions, Transition};
use crate::text::{concat2, concat3, decimal, decimal_string, owned};

verus! {

/// Whether the command-line and terminal tools talk to canned data instead
/// of a Jira server.
pub const DEV_MODE: bool = false;

/// The bytes that percent-encoding leaves as they are: ASCII letters and
/// digits, `-`, `.`, `_` and `~`.
pub open spec fn unreserved(b: u8) -> bool {
    ||| (48 <= b && b <= 57)
    ||| (65 <= b && b <= 90)
    ||| (97 <= b && b <= 122)
    ||| b == 45 || b == 46 || b == 95 || b == 126
}

/// The upper-case hexadecimal digit for `d`, which is below sixteen.
pub open spec fn hex_digit(d: u8) -> char {
    if d <= 9 {
        ((48 + d) as u32) as char
    } else {
        ((55 + d) as u32) as char
    }
}

/// Percent-encoding of bytes: every byte but the unreserved ones becomes
/// `%` and two upper-case hexadecimal digits.
pub open spec fn percent_encode(bytes: Seq<u8>) -> Seq<char>
    decreases bytes.len(),
{
    if bytes.len() == 0 {
        Seq::<char>::empty()
    } else {
        let b = bytes[0];
        let head = if unreserved(b) {
            seq![(b as u32) as char]
        } else {
            seq!['%', hex_digit(b / 16), hex_digit(b % 16)]
        };
        head + percent_encode(bytes.drop_first())
    }
}

/// The percent-encoded form of a text, taken as UTF-8.
pub open spec fn url_encoded(s: Seq<char>) -> Seq<char> {
    percent_encode(encode_utf8(s))
}

/// `urlencoding::encode`: percent-encodes every byte of the UTF-8 text but
/// ASCII letters, digits, `-`, `.`, `_` and `~`, with upper-case digits.
#[verifier::external_body]
fn url_encode(s: &str) -> (res: String)
    ensures
        res@ == url_encoded(s@),
{
    urlencoding::encode(s).into_owned()
}

/// The address of a JQL search.
pub fn search_url(jira_url: &str, jql: &str) -> (res: String)
    ensures
        res@ == jira_url@ + "/rest/api/2/search?jql="@ + url_encoded(jql@),
{
    let encoded = url_encode(jql);
    concat3(jira_url, "/rest/api/2/search?jql=", encoded.as_str())
}

/// The address of one issue, whose key is percent-encoded.
pub fn issue_url(jira_url: &str, key: &str) -> (res: String)
    ensures
        res@ == jira_url@ + "/rest/api/2/issue/"@ + url_encoded(key@),
{
    let encoded = url_encode(key);
    concat3(jira_url, "/rest/api/2/issue/", encoded.as_str())
}

/// The address of the transitions of an issue.
pub fn transitions_url(jira_url: &str, key: &str) -> (res: String)
    ensures
        res@ == jira_url@ + "/rest/api/2/issue/"@ + key@ + "/transitions"@,
{
    let mut s = concat3(jira_url, "/rest/api/2/issue/", key);
    s.append("/transitions");
    s
}

/// The address of an endpoint of the server.
pub fn endpoint_url(jira_url: &str, endpoint: &str) -> (res: String)
    ensures
        res@ == jira_url@ + endpoint@,
{
    concat2(jira_url, endpoint)
}

/// The address to which new issues are posted.
pub fn create_issue_url(jira_url: &str) -> (res: String)
    ensures
        res@ == jira_url@ + "/rest/api/2/issue"@,
{
    concat2(jira_url, "/rest/api/2/issue")
}

/// The web page of an issue.
pub fn browse_url(jira_url: &str, key: &str) -> (res: String)
    ensures
        res@ == jira_url@ + "/browse/"@ + key@,
{
    concat3(jira_url, "/browse/", key)
}

/// The value of the `Authorization` header for a token.
pub fn bearer_header(token: &str) -> (res: String)
    ensures
        res@ == "Bearer "@ + token@,
{
    concat2("Bearer ", token)
}

/// The reason phrase that HTTP gives to a status code, from the table of
/// registered codes; `None` for a code that has none.
pub uninterp spec fn canonical_reason_phrase(code: u16) -> Option<Seq<char>>;

/// `StatusCode::canonical_reason` of the `http` crate, as `reqwest`
/// re-exports it, for a code in the range that `StatusCode::from_u16`
/// accepts.
#[verifier::external_body]
fn canonical_reason(code: u16) -> (res: Option<String>)
    requires
        100 <= code <= 999,
    ensures
        match res {
            Some(r) => canonical_reason_phrase(code) == Some(r@),
            None => canonical_reason_phrase(code) is None,
        },
{
    match reqwest::StatusCode::from_u16(code) {
        Ok(status) => status.canonical_reason().map(|r| r.to_string()),
        Err(_) => None,
    }
}

/// How a status code prints: the number, a space and the reason phrase.
pub open spec fn status_display(code: u16) -> Seq<char> {
    decimal(code as nat) + " "@ + match canonical_reason_phrase(code) {
        Some(r) => r,
        None => "<unknown status code>"@,
    }
}

/// The printed form of a status code.
pub fn status_text(code: u16) -> (res: String)
    requires
        100 <= code <= 999,
    ensures
        res@ == status_display(code),
{
    let num = decimal_string(code as usize);
    match canonical_reason(code) {
        Some(r) => concat3(num.as_str(), " ", r.as_str()),
        None => concat3(num.as_str(), " ", "<unknown status code>"),
    }
}

/// Whether a status code reports success (200 to 299).
pub fn is_success(code: u16) -> (res: bool)
    ensures
        res == (200 <= code && code < 300),
{
    200 <= code && code < 300
}

/// The error of a request that the server refused, with the text it
/// answered.
pub fn api_error_message(code: u16, text: &str) -> (res: String)
    requires
        100 <= code <= 999,
    ensures
        res@ == "API error: "@ + status_display(code) + " - "@ + text@,
{
    let status = status_text(code);
    let mut s = concat3("API error: ", status.as_str(), " - ");
    s.append(text);
    s
}

/// The error of a request of the terminal interface that the server
/// refused.
pub fn http_error(code: u16) -> (res: String)
    requires
        100 <= code <= 999,
    ensures
        res@ == "HTTP "@ + status_display(code),
{
    let status = status_text(code);
    concat2("HTTP ", status.as_str())
}

/// The fields of a new issue.
pub struct CreateRequest {
    pub project_key: String,
    pub summary: String,
    pub description: String,
    pub issue_type_id: String,
    pub component: Option<String>,
}

/// `value`, or `default` when there is none.
fn or_default(value: Option<String>, default: &String) -> (res: String)
    ensures
        res@ == match value {
            Some(v) => v@,
            None => default@,
        },
{
    match value {
        Some(v) => v,
        None => default.clone(),
    }
}

/// The texts of a possible text.
pub open spec fn opt_text(v: Option<String>) -> Option<Seq<char>> {
    match v {
        Some(s) => Some(s@),
        None => None,
    }
}

/// The new issue that the command line posts: the configured project and
/// issue type stand in for missing ones, a missing description is empty,
/// and a given component is kept.
pub fn cli_create_request(
    config: &Config,
    name: &str,
    project: Option<String>,
    component: Option<String>,
    desc: Option<String>,
    issue_type: Option<String>,
) -> (res: CreateRequest)
    ensures
        res.project_key@ == (match project {
            Some(p) => p@,
            None => config.default_project@,
        }),
        res.summary@ == name@,
        res.description@ == (match desc {
            Some(d) => d@,
            None => Seq::<char>::empty(),
        }),
        res.issue_type_id@ == (match issue_type {
            Some(t) => t@,
            None => config.issue_type@,
        }),
        opt_text(res.component) == opt_text(component),
{
    let empty = String::new();
    CreateRequest {
        project_key: or_default(project, &config.default_project),
        summary: owned(name),
        description: or_default(desc, &empty),
        issue_type_id: or_default(issue_type, &config.issue_type),
        component,
    }
}

/// The blocking HTTP client of `reqwest`, carried through as it is.
#[verifier::external_type_specification]
#[verifier::external_body]
pub struct ExHttpClient(reqwest::blocking::Client);

/// A client of the Jira server with the settings it was made with.
pub struct JiraClient {
    client: reqwest::blocking::Client,
    config: Config,
}

/// What a client of the terminal interface posts when it creates an issue.
pub open spec fn tui_component(component: Option<String>) -> Option<Seq<char>> {
    match component {
        Some(c) => if c@.len() > 0 {
            Some(c@)
        } else {
            None
        },
        None => None,
    }
}

impl JiraClient {
    /// The settings of the client.
    pub closed spec fn settings(self) -> Config {
        self.config
    }

    /// The HTTP client that the client holds.
    pub closed spec fn http_client(self) -> reqwest::blocking::Client {
        self.client
    }

    /// A client with the given settings that sends its requests through
    /// `client` (which the program builds, as that starts the HTTP
    /// machinery).
    pub fn new(config: Config, client: reqwest::blocking::Client) -> (res: Self)
        ensures
            res.settings() == config,
            res.http_client() == client,
    {
        JiraClient { client, config }
    }

    /// The HTTP client that this client holds.
    pub fn http(&self) -> (res: &reqwest::blocking::Client)
        ensures
            *res == self.http_client(),
    {
        &self.client
    }

    /// The settings of the client.
    pub fn config(&self) -> (res: &Config)
        ensures
            *res == self.settings(),
    {
        &self.config
    }

    /// The value of the `Authorization` header.
    pub fn auth_header(&self) -> (res: String)
        ensures
            res@ == "Bearer "@ + self.settings().token@,
    {
        bearer_header(self.config.token.as_str())
    }

    /// The address of the server.
    pub fn jira_url(&self) -> (res: &str)
        ensures
            res@ == self.settings().jira_url@,
    {
        self.config.jira_url.as_str()
    }

    /// The new issue that the terminal interface posts: the configured
    /// project and issue type stand in for missing ones, a missing
    /// description is empty, and a component is kept when it is not empty.
    pub fn create_request(
        &self,
        summary: &str,
        project: Option<String>,
        component: Option<String>,
        description: Option<String>,
        issue_type: Option<String>,
    ) -> (res: CreateRequest)
        ensures
            res.project_key@ == (match project {
                Some(p) => p@,
                None => self.settings().default_project@,
            }),
            res.summary@ == summary@,
            res.description@ == (match description {
                Some(d) => d@,
                None => Seq::<char>::empty(),
            }),
            res.issue_type_id@ == (match issue_type {
                Some(t) => t@,
                None => self.settings().issue_type@,
            }),
            opt_text(res.component) == tui_component(component),
    {
        let empty = String::new();
        let component = match component {
            Some(c) => if c.as_str().is_empty() {
                None
            } else {
                Some(c)
            },
            None => None,
        };
        CreateRequest {
            project_key: or_default(project, &self.config.default_project),
            summary: owned(summary),
            description: or_default(description, &empty),
            issue_type_id: or_default(issue_type, &self.config.issue_type),
            component,
        }
    }

    /// Whether the client answers from canned data instead of a server.
    pub fn offline() -> (res: bool)
        ensures
            res == DEV_MODE,
    {
        DEV_MODE
    }

    /// The answer to creating an issue without a server: the canned message
    /// when the client runs offline, `None` when the server is to be asked.
    pub fn offline_create(summary: &str) -> (res: Option<String>)
        ensures
            DEV_MODE ==> (res matches Some(m) && m@ == "Created "@ + summary@ + " in DEV_MODE"@),
            !DEV_MODE ==> res is None,
    {
        if DEV_MODE {
            Some(JiraClient::dev_mode_created(summary))
        } else {
            None
        }
    }

    /// The transitions without a server: the canned ones when the client
    /// runs offline, `None` when the server is to be asked.
    pub fn offline_transitions() -> (res: Option<Vec<Transition>>)
        ensures
            DEV_MODE ==> (res matches Some(v) && v@.len() == 3 && v@[0].id@ == "11"@
                && v@[0].name@ == "To Do"@ && v@[1].id@ == "21"@ && v@[1].name@ == "In Progress"@
                && v@[2].id@ == "31"@ && v@[2].name@ == "Done"@),
            !DEV_MODE ==> res is None,
    {
        if DEV_MODE {
            Some(mock_transitions())
        } else {
            None
        }
    }

    /// What a request of the terminal interface came to, by the status the
    /// server answered: success, or the error that names the status.
    pub fn response_result(code: u16) -> (res: Result<(), String>)
        requires
            100 <= code <= 999,
        ensures
            200 <= code < 300 ==> res is Ok,
            !(200 <= code < 300) ==> (res matches Err(e) && e@ == "HTTP "@ + status_display(code)),
    {
        if is_success(code) {
            Ok(())
        } else {
            Err(http_error(code))
        }
    }

    /// The answer to creating an issue when no server is used.
    pub fn dev_mode_created(summary: &str) -> (res: String)
        ensures
            res@ == "Created "@ + summary@ + " in DEV_MODE"@,
    {
        concat3("Created ", summary, " in DEV_MODE")
    }
}

} // verus!
