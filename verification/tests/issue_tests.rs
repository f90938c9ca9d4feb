use lazyjira::doctor::{doctor_lines, CacheStatus};
use lazyjira::config::Config;
use lazyjira::issue::{
    issue_line, issues_from_cache, mock_issues, search_lines, JiraFields, JiraIssue,
    JiraSearchResponse, JiraStatus,
};

fn jira_issue(key: &str, status: &str, summary: &str) -> JiraIssue {
    JiraIssue {
        key: key.to_string(),
        fields: JiraFields {
            summary: summary.to_string(),
            status: JiraStatus { name: status.to_string() },
            components: vec![],
        },
    }
}

#[test]
fn issue_lines() {
    assert_eq!(issue_line("A-1", "Done", "Sum"), "A-1 [Done] Sum");
    let resp = JiraSearchResponse { issues: vec![jira_issue("A-1", "Open", "x"), jira_issue("A-2", "Done", "y")] };
    assert_eq!(search_lines(&resp), vec!["A-1 [Open] x", "A-2 [Done] y"]);
}

#[test]
fn cache_rows() {
    let resp = JiraSearchResponse { issues: vec![jira_issue("A-1", "Open", "x")] };
    assert_eq!(
        issues_from_cache(Ok(resp)),
        vec![("A-1".to_string(), "Open".to_string(), "x".to_string())]
    );
    assert!(issues_from_cache(Err("No cache file".to_string())).is_empty());
}

#[test]
fn mock_issue_data() {
    let issues = mock_issues();
    assert_eq!(issues.len(), 5);
    assert_eq!(issues[0].key, "PROJ-101");
    assert_eq!(issues[1].fields.status.name, "To Do");
    assert_eq!(issues[3].fields.assignee.as_ref().unwrap().display_name.as_deref(), Some("Charlie Brown"));
    assert!(issues[4].fields.assignee.is_none());
    assert_eq!(issues[4].fields.reporter.as_ref().unwrap().display_name.as_deref(), Some("Alice Johnson"));
    assert_eq!(
        issues[2].fields.description.as_deref(),
        Some("Implement theme switching with system preference detection")
    );
}

#[test]
fn doctor_report() {
    let c = Config {
        token: "".to_string(),
        jira_url: "u".to_string(),
        default_project: "P".to_string(),
        issue_type: "1".to_string(),
    };
    assert_eq!(
        doctor_lines(Some(&c), CacheStatus::Items(12), true),
        vec![
            "Token: not set",
            "Jira URL: u",
            "Default Project: P",
            "Issue Type: 1",
            "Cache items: 12",
            "fzf: found"
        ]
    );
    let c2 = Config { token: "t".to_string(), ..c };
    assert_eq!(doctor_lines(Some(&c2), CacheStatus::Broken, true)[0], "Token: set");
    assert_eq!(
        doctor_lines(None, CacheStatus::Missing, false),
        vec![
            "Config: not found",
            "Cache: no cache",
            "fzf: not found (needed for interactive selection)"
        ]
    );
    assert_eq!(doctor_lines(None, CacheStatus::Broken, true)[1], "Cache items: broken cache");
}
