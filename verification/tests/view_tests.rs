use lazyjira::config::Config;
use lazyjira::http::JiraClient;
use lazyjira::issue::mock_issues;
use lazyjira::layout::{centered_rect, Area};
use lazyjira::markdown::render_markdown;
use lazyjira::state::AppState;
use lazyjira::view::{
    count_lines, current_ticket_header, description_view, form_field_display, issue_list_lines,
    jql_display, jql_title,
};

fn view_state() -> AppState {
    AppState::new(
        mock_issues(),
        JiraClient::new(Config {
            token: "t".to_string(),
            jira_url: "https://j".to_string(),
            default_project: "P".to_string(),
            issue_type: "1".to_string(),
        }, reqwest::blocking::Client::new()),
    )
}

#[test]
fn header_of_current_ticket() {
    let mut s = view_state();
    assert_eq!(current_ticket_header(&s), "PROJ-101 >>> Implement user authentication [John Doe]");
    s.selected = 4;
    assert_eq!(
        current_ticket_header(&s),
        "PROJ-105 >>> Write unit tests for API endpoints [Unassigned]"
    );
    s.selected = 5;
    assert_eq!(current_ticket_header(&s), "No issue selected");
}

#[test]
fn list_window() {
    let mut s = view_state();
    s.selected = 4;
    let lines = issue_list_lines(&s, 4);
    assert_eq!(
        lines,
        vec![
            "  PROJ-104 [In Progress] Update dependencies",
            "> PROJ-105 [To Do] Write unit tests for API endpoints",
        ]
    );
    assert_eq!(issue_list_lines(&s, 2).len(), 0);
    assert_eq!(issue_list_lines(&s, 20).len(), 5);
}

#[test]
fn markdown_rendering() {
    assert_eq!(render_markdown("Hello *world*"), "\nHello world\n");
    assert_eq!(render_markdown("a\nb"), "\na\nb\n");
    assert_eq!(render_markdown(""), "");
}

#[test]
fn line_counts() {
    assert_eq!(count_lines(""), 0);
    assert_eq!(count_lines("a"), 1);
    assert_eq!(count_lines("a\n"), 1);
    assert_eq!(count_lines("\n"), 1);
    assert_eq!(count_lines("a\n\nb"), 3);
}

#[test]
fn description_scroll_is_held() {
    let mut s = view_state();
    s.desc_scroll = 100;
    let (desc, scroll) = description_view(&s, 3).unwrap();
    assert_eq!(desc, "\nAdd login and logout functionality with JWT tokens\n");
    assert_eq!(scroll, 1);
    s.desc_scroll = 0;
    assert_eq!(description_view(&s, 3).unwrap().1, 0);
    s.selected = 7;
    assert!(description_view(&s, 3).is_none());
}

#[test]
fn query_line_display() {
    assert_eq!(jql_display("abc", 1, true), "a█bc");
    assert_eq!(jql_display("abc", 9, true), "abc█");
    assert_eq!(jql_display("abc", 0, false), "abc");
    assert_eq!(jql_title(true), " JQL (active) ");
    assert_eq!(jql_title(false), " JQL ");
    assert_eq!(form_field_display("v", true), "v █");
    assert_eq!(form_field_display("v", false), "v");
}

#[test]
fn centered_popup() {
    let r = centered_rect(60, 80, &Area { x: 0, y: 0, width: 100, height: 100 });
    assert_eq!((r.x, r.y, r.width, r.height), (20, 10, 60, 80));
}
