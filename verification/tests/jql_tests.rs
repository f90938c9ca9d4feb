use lazyjira::config::FileRead;
use lazyjira::jql::{load_jql_history, save_jql_history};
use lazyjira::jql::{component_jql, from_jql, history_lines, mine_jql, record_jql, search_jql};

#[test]
fn query_builders() {
    assert_eq!(mine_jql(), "assignee = currentUser() ORDER BY updated DESC");
    assert_eq!(from_jql("a,b"), "assignee in (a,b) ORDER BY updated DESC");
    assert_eq!(search_jql(None), "assignee = currentUser()");
    assert_eq!(search_jql(Some("project = X".to_string())), "project = X");
}

#[test]
fn component_query_is_upper_case() {
    assert_eq!(component_jql("fsv/is"), "component = \"FSV/IS\" ORDER BY updated DESC");
    assert_eq!(component_jql("straße"), "component = \"STRASSE\" ORDER BY updated DESC");
}

#[test]
fn record_puts_new_query_first() {
    let h = vec!["b".to_string(), "c".to_string()];
    assert_eq!(record_jql(h, "a").unwrap(), vec!["a", "b", "c"]);
}

#[test]
fn record_skips_known_query() {
    let h = vec!["b".to_string(), "a".to_string()];
    assert!(record_jql(h, "a").is_none());
}

#[test]
fn record_twice_changes_once() {
    let once = record_jql(vec![], "q").unwrap();
    assert_eq!(once, vec!["q"]);
    assert!(record_jql(once, "q").is_none());
}

#[test]
fn record_keeps_fifty() {
    let h: Vec<String> = (0..50).map(|i| format!("q{}", i)).collect();
    let out = record_jql(h, "new").unwrap();
    assert_eq!(out.len(), 50);
    assert_eq!(out[0], "new");
    assert_eq!(out[49], "q48");
}

#[test]
fn history_listing() {
    assert_eq!(history_lines(&vec![]), vec!["No JQL history found"]);
    assert_eq!(
        history_lines(&vec!["a".to_string(), "b".to_string()]),
        vec!["1: a", "2: b"]
    );
}

#[test]
fn history_file_text() {
    assert_eq!(load_jql_history(FileRead::Missing), Vec::<String>::new());
    assert_eq!(load_jql_history(FileRead::Failed("e".to_string())), Vec::<String>::new());
    assert_eq!(load_jql_history(FileRead::Read("not json".to_string())), Vec::<String>::new());
    assert_eq!(load_jql_history(FileRead::Read("[\"a\",\"b\"]".to_string())), vec!["a", "b"]);
    assert_eq!(
        save_jql_history(FileRead::Read("[\"b\"]".to_string()), "a \"q\""),
        Some("[\"a \\\"q\\\"\",\"b\"]".to_string())
    );
    assert_eq!(save_jql_history(FileRead::Read("[\"a\"]".to_string()), "a"), None);
    assert_eq!(save_jql_history(FileRead::Missing, "x"), Some("[\"x\"]".to_string()));
}
