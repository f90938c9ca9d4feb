use lazyjira::config::Config;
use lazyjira::http::{
    api_error_message, bearer_header, browse_url, cli_create_request, create_issue_url,
    endpoint_url, http_error, is_success, issue_url, search_url, status_text, transitions_url,
    JiraClient,
};

fn http_config() -> Config {
    Config {
        token: "tok".to_string(),
        jira_url: "https://j".to_string(),
        default_project: "DEF".to_string(),
        issue_type: "100".to_string(),
    }
}

#[test]
fn search_url_percent_encodes() {
    assert_eq!(
        search_url("https://j", "assignee = currentUser()"),
        "https://j/rest/api/2/search?jql=assignee%20%3D%20currentUser%28%29"
    );
    assert_eq!(search_url("u", "a-b_c.d~e"), "u/rest/api/2/search?jql=a-b_c.d~e");
    assert_eq!(search_url("u", "ü"), "u/rest/api/2/search?jql=%C3%BC");
}

#[test]
fn other_urls() {
    assert_eq!(issue_url("https://j", "AB-1 x"), "https://j/rest/api/2/issue/AB-1%20x");
    assert_eq!(transitions_url("https://j", "AB-1"), "https://j/rest/api/2/issue/AB-1/transitions");
    assert_eq!(endpoint_url("https://j", "/rest/api/2/issue"), "https://j/rest/api/2/issue");
    assert_eq!(create_issue_url("https://j"), "https://j/rest/api/2/issue");
    assert_eq!(browse_url("https://j", "AB-1"), "https://j/browse/AB-1");
    assert_eq!(bearer_header("xyz"), "Bearer xyz");
}

#[test]
fn status_texts() {
    assert_eq!(status_text(404), "404 Not Found");
    assert_eq!(status_text(200), "200 OK");
    assert_eq!(status_text(599), "599 <unknown status code>");
    assert!(is_success(200));
    assert!(is_success(299));
    assert!(!is_success(300));
    assert!(!is_success(199));
    assert_eq!(api_error_message(401, "nope"), "API error: 401 Unauthorized - nope");
    assert_eq!(http_error(500), "HTTP 500 Internal Server Error");
}

#[test]
fn cli_request_defaults() {
    let c = http_config();
    let r = cli_create_request(&c, "Fix", None, Some("".to_string()), None, None);
    assert_eq!(r.project_key, "DEF");
    assert_eq!(r.summary, "Fix");
    assert_eq!(r.description, "");
    assert_eq!(r.issue_type_id, "100");
    assert_eq!(r.component, Some("".to_string()));
    let r = cli_create_request(
        &c,
        "Fix",
        Some("P".to_string()),
        None,
        Some("d".to_string()),
        Some("7".to_string()),
    );
    assert_eq!(r.project_key, "P");
    assert_eq!(r.description, "d");
    assert_eq!(r.issue_type_id, "7");
    assert_eq!(r.component, None);
}

#[test]
fn tui_client() {
    let client = JiraClient::new(http_config(), reqwest::blocking::Client::new());
    assert_eq!(client.jira_url(), "https://j");
    assert_eq!(client.auth_header(), "Bearer tok");
    assert_eq!(client.config().default_project, "DEF");
    let r = client.create_request("S", None, Some("".to_string()), None, None);
    assert_eq!(r.component, None);
    assert_eq!(r.project_key, "DEF");
    let r = client.create_request("S", None, Some("C".to_string()), None, None);
    assert_eq!(r.component, Some("C".to_string()));
    assert_eq!(JiraClient::dev_mode_created("S"), "Created S in DEV_MODE");
}

#[test]
fn offline_and_responses() {
    assert!(!JiraClient::offline());
    assert_eq!(JiraClient::offline_create("S"), None);
    assert!(JiraClient::offline_transitions().is_none());
    assert_eq!(JiraClient::response_result(201), Ok(()));
    assert_eq!(JiraClient::response_result(404), Err("HTTP 404 Not Found".to_string()));
}
