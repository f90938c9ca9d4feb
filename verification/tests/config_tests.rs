use lazyjira::config::{existing_config, load_config, parse_env, render_env_file, validate_prompt_input, Config, FileRead};
use lazyjira::paths::{get_cache_dir, get_cache_file, get_env_file, get_history_file, join_path};
use lazyjira::text::{decimal_string, trim_chars};

fn sample() -> Config {
    Config {
        token: "abc123".to_string(),
        jira_url: "https://jira.example.com".to_string(),
        default_project: "PROJ".to_string(),
        issue_type: "10001".to_string(),
    }
}

#[test]
fn parse_env_reads_all_keys() {
    let c = parse_env("TOKEN=t\nJIRA_URL=https://x\nDEFAULT_PROJECT=P\nISSUE_TYPE=3\n");
    assert_eq!(c.token, "t");
    assert_eq!(c.jira_url, "https://x");
    assert_eq!(c.default_project, "P");
    assert_eq!(c.issue_type, "3");
}

#[test]
fn parse_env_trims_and_splits_at_first_equals() {
    let c = parse_env("  TOKEN =  a=b \r\nJIRA_URL= u ");
    assert_eq!(c.token, "a=b");
    assert_eq!(c.jira_url, "u");
    assert_eq!(c.default_project, "");
    assert_eq!(c.issue_type, "");
}

#[test]
fn parse_env_last_line_wins() {
    let c = parse_env("TOKEN=first\nTOKEN=second\n");
    assert_eq!(c.token, "second");
}

#[test]
fn parse_env_ignores_lines_without_equals_and_unknown_keys() {
    let c = parse_env("# comment\nOTHER=1\nTOKEN\n\nISSUE_TYPE=7");
    assert_eq!(c.token, "");
    assert_eq!(c.issue_type, "7");
}

#[test]
fn parse_env_empty_text() {
    let c = parse_env("");
    assert_eq!(c.token, "");
    assert_eq!(c.jira_url, "");
}

#[test]
fn render_env_file_format() {
    assert_eq!(
        render_env_file(&sample()),
        "TOKEN=abc123\nJIRA_URL=https://jira.example.com\nDEFAULT_PROJECT=PROJ\nISSUE_TYPE=10001\n"
    );
}

#[test]
fn env_file_round_trip_on_values() {
    let c = sample();
    let back = parse_env(&render_env_file(&c));
    assert_eq!(back.token, c.token);
    assert_eq!(back.jira_url, c.jira_url);
    assert_eq!(back.default_project, c.default_project);
    assert_eq!(back.issue_type, c.issue_type);
}

#[test]
fn load_missing_and_failed_and_read() {
    match Config::load(FileRead::Missing) {
        Err(e) => assert_eq!(e, "Config file not found. Please run 'jira init' first."),
        Ok(_) => panic!("expected an error"),
    }
    match Config::load(FileRead::Failed("denied".to_string())) {
        Err(e) => assert_eq!(e, "Failed to read config file: denied"),
        Ok(_) => panic!("expected an error"),
    }
    match Config::load(FileRead::Read("TOKEN=x".to_string())) {
        Ok(c) => assert_eq!(c.token, "x"),
        Err(_) => panic!("expected settings"),
    }
}

#[test]
fn cli_load_config_and_existing_config() {
    assert!(load_config(FileRead::Missing).is_none());
    assert!(load_config(FileRead::Failed("e".to_string())).is_none());
    assert_eq!(load_config(FileRead::Read("JIRA_URL=u".to_string())).unwrap().jira_url, "u");
    assert!(existing_config(FileRead::Missing).is_none());
    match existing_config(FileRead::Failed("boom".to_string())) {
        Some(Err(e)) => assert_eq!(e, "boom"),
        _ => panic!("expected the read error"),
    }
    match existing_config(FileRead::Read("ISSUE_TYPE=9".to_string())) {
        Some(Ok(c)) => assert_eq!(c.issue_type, "9"),
        _ => panic!("expected settings"),
    }
}

#[test]
fn prompt_input_is_trimmed_and_required() {
    assert_eq!(validate_prompt_input("Jira URL", "  https://x \n").unwrap(), "https://x");
    assert_eq!(validate_prompt_input("Jira URL", " \t\n").unwrap_err(), "Jira URL cannot be empty");
    assert_eq!(validate_prompt_input("Token", "").unwrap_err(), "Token cannot be empty");
}

#[test]
fn trim_handles_unicode_whitespace() {
    let chars: Vec<char> = "\u{3000}\u{A0} a b \u{2009}".chars().collect();
    let t: String = trim_chars(&chars).into_iter().collect();
    assert_eq!(t, "a b");
}

#[test]
fn paths_join_like_path_join() {
    assert_eq!(join_path("/home/u/.config/lazyjira", "cache"), "/home/u/.config/lazyjira/cache");
    assert_eq!(join_path("/base/", "env"), "/base/env");
    assert_eq!(join_path("", "env"), "env");
    assert_eq!(get_cache_dir("/c"), "/c/cache");
    assert_eq!(get_env_file("/c"), "/c/env");
    assert_eq!(get_cache_file("/c"), "/c/cache/issues.json");
    assert_eq!(get_history_file("/c"), "/c/cache/history.json");
    assert_eq!(Config::get_cache_dir("/d"), "/d/cache");
}

#[test]
fn decimal_formatting() {
    assert_eq!(decimal_string(0), "0");
    assert_eq!(decimal_string(7), "7");
    assert_eq!(decimal_string(10), "10");
    assert_eq!(decimal_string(12345), "12345");
}
