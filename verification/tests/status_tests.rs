use lazyjira::status::{update_plan, update_start, UpdatePlan};
use lazyjira::status::{available_command_line, available_commands, find_transition_id, get_status_names, mock_transitions, Transition};

#[test]
fn status_aliases() {
    assert_eq!(get_status_names("done"), Some("Fertig"));
    assert_eq!(get_status_names("start"), Some("Wird Ausgeführt"));
    assert_eq!(get_status_names("todo"), Some("Zu erledigen"));
    assert_eq!(get_status_names("review"), Some("In Review"));
    assert_eq!(get_status_names("waiting"), Some("Waiting"));
    assert_eq!(get_status_names("fertig"), Some("Fertig"));
    assert_eq!(get_status_names("wird-ausgefuhrt"), Some("Wird Ausgeführt"));
    assert_eq!(get_status_names("wird-ausgeführt"), Some("Wird Ausgeführt"));
    assert_eq!(get_status_names("erledigen"), Some("Zu erledigen"));
    assert_eq!(get_status_names("zu-erledigen"), Some("Zu erledigen"));
    assert_eq!(get_status_names("Done"), None);
    assert_eq!(get_status_names(""), None);
}

fn t(id: &str, name: &str) -> Transition {
    Transition { id: id.to_string(), name: name.to_string() }
}

#[test]
fn first_matching_transition() {
    let ts = vec![t("1", "Zu erledigen"), t("2", "Fertig"), t("3", "Fertig")];
    assert_eq!(find_transition_id(&ts, "Fertig"), Some("2".to_string()));
    assert_eq!(find_transition_id(&ts, "Waiting"), None);
    assert_eq!(find_transition_id(&vec![], "Fertig"), None);
}

#[test]
fn command_lines() {
    assert_eq!(available_command_line("Done"), "  done           -> Done");
    assert_eq!(available_command_line("Wird Ausgeführt"), "  start          -> Wird Ausgeführt");
    assert_eq!(available_command_line("To Do"), "  todo           -> To Do");
    assert_eq!(available_command_line("In Review"), "  review         -> In Review");
    assert_eq!(available_command_line("Waiting"), "  waiting        -> Waiting");
    assert_eq!(available_command_line("Blocked Now"), "  blocked now           -> Blocked Now");
}

#[test]
fn command_listing_has_heading() {
    let lines = available_commands(&vec![t("1", "Fertig")]);
    assert_eq!(lines, vec!["\nAvailable commands:", "  done           -> Fertig"]);
}

#[test]
fn mock_transition_list() {
    let ts = mock_transitions();
    assert_eq!(ts.len(), 3);
    assert_eq!((ts[0].id.as_str(), ts[0].name.as_str()), ("11", "To Do"));
    assert_eq!((ts[1].id.as_str(), ts[1].name.as_str()), ("21", "In Progress"));
    assert_eq!((ts[2].id.as_str(), ts[2].name.as_str()), ("31", "Done"));
}

#[test]
fn suggested_words_lead_back_to_german_transitions() {
    for (word, name) in [
        ("done", "Fertig"),
        ("start", "Wird Ausgeführt"),
        ("todo", "Zu erledigen"),
        ("review", "In Review"),
        ("waiting", "Waiting"),
    ] {
        let line = available_command_line(name);
        assert!(line.trim_start().starts_with(word));
        assert_eq!(get_status_names(word), Some(name));
    }
    assert_eq!(available_command_line("Done"), "  done           -> Done");
    assert_ne!(get_status_names("done"), Some("Done"));
}

#[test]
fn update_steps() {
    assert_eq!(update_start("done").unwrap(), "Fertig");
    assert_eq!(update_start("nope").unwrap_err(), vec!["Unknown state: nope"]);
    let ts = vec![t("5", "Fertig"), t("6", "Fertig")];
    match update_plan("done", "AB-1", "Fertig", &ts) {
        UpdatePlan::Post { transition_id, message } => {
            assert_eq!(transition_id, "5");
            assert_eq!(message, "Updated Ticket AB-1 to done");
        }
        UpdatePlan::Fail(_) => panic!("expected a transition"),
    }
    match update_plan("todo", "AB-1", "Zu erledigen", &ts) {
        UpdatePlan::Fail(lines) => assert_eq!(
            lines,
            vec![
                "No transition found for 'todo' on AB-1",
                "\nAvailable commands:",
                "  done           -> Fertig",
                "  done           -> Fertig",
            ]
        ),
        UpdatePlan::Post { .. } => panic!("expected no transition"),
    }
}
