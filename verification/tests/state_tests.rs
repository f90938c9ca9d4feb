use lazyjira::config::Config;
use lazyjira::http::JiraClient;
use lazyjira::issue::{mock_issues, Issue};
use lazyjira::keys::{handle_key, KeyAction, KeyInput};
use lazyjira::state::{reload_issues, AppState, Focus};

fn state_client() -> JiraClient {
    JiraClient::new(Config {
        token: "t".to_string(),
        jira_url: "https://j".to_string(),
        default_project: "P".to_string(),
        issue_type: "1".to_string(),
    }, reqwest::blocking::Client::new())
}

fn fresh_state() -> AppState {
    AppState::new(mock_issues(), state_client())
}

#[test]
fn new_state() {
    let s = fresh_state();
    assert_eq!(s.selected, 0);
    assert_eq!(s.jql, "assignee = currentUser() ORDER BY updated DESC");
    assert!(matches!(s.focus, Focus::Issues));
    assert!(!s.show_help);
}

#[test]
fn next_and_prev_stay_in_list() {
    let mut s = fresh_state();
    s.prev();
    assert_eq!(s.selected, 0);
    for _ in 0..10 {
        s.next();
    }
    assert_eq!(s.selected, 4);
    s.prev();
    assert_eq!(s.selected, 3);
    s.next();
    assert_eq!(s.selected, 4);
}

#[test]
fn insert_then_backspace_restores() {
    let mut s = fresh_state();
    s.jql = "ab".to_string();
    s.jql_cursor = 1;
    s.jql_insert('ü');
    assert_eq!(s.jql, "aüb");
    assert_eq!(s.jql_cursor, 2);
    s.jql_backspace();
    assert_eq!(s.jql, "ab");
    assert_eq!(s.jql_cursor, 1);
    s.jql_cursor = 0;
    s.jql_backspace();
    assert_eq!(s.jql, "ab");
    assert_eq!(s.jql_cursor, 0);
}

#[test]
fn insert_at_end() {
    let mut s = fresh_state();
    s.jql = "x".to_string();
    s.jql_cursor = 1;
    s.jql_insert('y');
    assert_eq!(s.jql, "xy");
}

#[test]
fn scroll_keeps_selection() {
    let mut s = fresh_state();
    s.selected = 4;
    s.ensure_visible(2);
    assert_eq!(s.list_offset, 3);
    s.selected = 0;
    s.update_list_scroll(2);
    assert_eq!(s.list_offset, 0);
    s.list_offset = 9;
    s.selected = 2;
    s.update_list_scroll(3);
    assert_eq!(s.list_offset, 2);
    s.list_offset = 4;
    s.selected = 4;
    s.ensure_visible(10);
    assert_eq!(s.list_offset, 0);
}

#[test]
fn scroll_of_empty_list_is_kept() {
    let mut s = AppState::new(Vec::<Issue>::new(), state_client());
    s.list_offset = 7;
    s.ensure_visible(3);
    assert_eq!(s.list_offset, 7);
}

#[test]
fn selected_people() {
    let mut s = fresh_state();
    assert_eq!(s.assignee(), Some("John Doe"));
    assert_eq!(s.reporter(), Some("Jane Smith"));
    s.selected = 4;
    assert_eq!(s.assignee(), None);
    assert_eq!(s.reporter(), Some("Alice Johnson"));
    s.selected = 9;
    assert!(s.selected().is_none());
    assert_eq!(s.reporter(), None);
}

#[test]
fn reload_resets_view() {
    let mut s = fresh_state();
    s.selected = 3;
    s.list_offset = 2;
    s.desc_scroll = 5;
    reload_issues(&mut s, Vec::new());
    assert_eq!(s.issues.len(), 0);
    assert_eq!((s.selected, s.list_offset, s.desc_scroll), (0, 0, 0));
}

#[test]
fn keys_quit_and_help() {
    let mut s = fresh_state();
    assert!(matches!(handle_key(&mut s, KeyInput::Char('?')), KeyAction::Continue));
    assert!(s.show_help);
    handle_key(&mut s, KeyInput::Char('?'));
    assert!(!s.show_help);
    assert!(matches!(handle_key(&mut s, KeyInput::Char('q')), KeyAction::Quit));
    handle_key(&mut s, KeyInput::Char('?'));
    handle_key(&mut s, KeyInput::Esc);
    assert!(!s.show_help);
}

#[test]
fn keys_navigate_and_open() {
    let mut s = fresh_state();
    handle_key(&mut s, KeyInput::Char('j'));
    assert_eq!(s.selected, 1);
    handle_key(&mut s, KeyInput::Char('k'));
    assert_eq!(s.selected, 0);
    handle_key(&mut s, KeyInput::Char('u'));
    assert_eq!(s.desc_scroll, 0);
    handle_key(&mut s, KeyInput::Char('d'));
    assert_eq!(s.desc_scroll, 1);
    match handle_key(&mut s, KeyInput::Char('o')) {
        KeyAction::Open(url) => assert_eq!(url, "https://j/browse/PROJ-101"),
        _ => panic!("expected an address"),
    }
}

#[test]
fn keys_edit_query() {
    let mut s = fresh_state();
    handle_key(&mut s, KeyInput::Char('#'));
    assert!(matches!(s.focus, Focus::Jql));
    assert!(s.editing_jql);
    assert_eq!(s.jql, "");
    handle_key(&mut s, KeyInput::Char('x'));
    handle_key(&mut s, KeyInput::Char('j'));
    assert_eq!(s.jql, "xj");
    handle_key(&mut s, KeyInput::Backspace);
    assert_eq!(s.jql, "x");
    assert!(matches!(handle_key(&mut s, KeyInput::Enter), KeyAction::Reload));
    assert!(matches!(s.focus, Focus::Issues));
    assert!(!s.editing_jql);
    handle_key(&mut s, KeyInput::Char('@'));
    assert_eq!(s.jql, "x");
    handle_key(&mut s, KeyInput::Esc);
    assert!(matches!(s.focus, Focus::Issues));
}

#[test]
fn slash_turns_to_query_line() {
    let mut s = fresh_state();
    handle_key(&mut s, KeyInput::Char('/'));
    assert!(matches!(s.focus, Focus::Jql));
    assert!(s.editing_jql);
    assert_eq!(s.jql, "assignee = currentUser() ORDER BY updated DESC");
    handle_key(&mut s, KeyInput::Char('/'));
    assert_eq!(s.jql, "assignee = currentUser() ORDER BY updated DESC/");
}

#[test]
fn both_scroll_methods_agree() {
    let mut a = fresh_state();
    let mut b = fresh_state();
    a.selected = 4;
    b.selected = 4;
    a.update_list_scroll(3);
    b.ensure_visible(3);
    assert_eq!(a.list_offset, 2);
    assert_eq!(b.list_offset, 2);
    a.ensure_visible(3);
    assert_eq!(a.list_offset, 2);
}
