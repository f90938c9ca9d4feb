use lazyjira::show::{show_lines, IssueDetails, IssueLink, LinkedIssue};

fn bare() -> IssueDetails {
    IssueDetails {
        key: "\"AB-1\"".to_string(),
        summary: "\"Title\"".to_string(),
        issue_type: None,
        status: None,
        assignee: None,
        reporter: None,
        priority: None,
        project: None,
        created: None,
        updated: None,
        due_date: None,
        description: None,
        components: None,
        labels: None,
        links: None,
    }
}

#[test]
fn minimal_view() {
    let eq = "=".repeat(80);
    assert_eq!(
        show_lines(&bare()),
        vec![
            "\n\"AB-1\": \"Title\"".to_string(),
            format!("{}\n", eq),
            "Assignee: unassigned".to_string(),
            format!("\n{}\n", eq),
        ]
    );
}

#[test]
fn full_view() {
    let mut d = bare();
    d.issue_type = Some("Bug".to_string());
    d.status = Some("Open".to_string());
    d.assignee = Some(Some("Ann".to_string()));
    d.reporter = Some("Bob".to_string());
    d.priority = Some("High".to_string());
    d.project = Some("Proj".to_string());
    d.created = Some("c".to_string());
    d.updated = Some("u".to_string());
    d.due_date = Some("d".to_string());
    d.description = Some("Text".to_string());
    d.components = Some(vec![Some("Core".to_string()), None]);
    d.labels = Some(vec![]);
    d.links = Some(vec![
        IssueLink {
            link_kind: Some("blocks".to_string()),
            outward: Some(LinkedIssue { key: Some("AB-2".to_string()), summary: "\"Other\"".to_string() }),
            inward: None,
        },
        IssueLink {
            link_kind: Some("relates".to_string()),
            outward: None,
            inward: Some(LinkedIssue { key: Some("AB-3".to_string()), summary: "\"Third\"".to_string() }),
        },
        IssueLink { link_kind: None, outward: None, inward: None },
    ]);
    let dash = format!("\n{}", "-".repeat(80));
    let lines = show_lines(&d);
    assert_eq!(
        lines[2..].to_vec(),
        vec![
            "Type: Bug".to_string(),
            "Status: Open".to_string(),
            "Assignee: Ann".to_string(),
            "Reporter: Bob".to_string(),
            "Priority: High".to_string(),
            "Project: Proj".to_string(),
            "Created: c".to_string(),
            "Updated: u".to_string(),
            "Due Date: d".to_string(),
            dash.clone(),
            "Description:\n".to_string(),
            "Text".to_string(),
            dash.clone(),
            "Components:".to_string(),
            "  • Core".to_string(),
            dash.clone(),
            "Related Issues:".to_string(),
            "  blocks -> AB-2 \"Other\"".to_string(),
            "  relates <- AB-3 \"Third\"".to_string(),
            format!("\n{}\n", "=".repeat(80)),
        ]
    );
}

#[test]
fn assignee_object_without_name_prints_nothing() {
    let mut d = bare();
    d.assignee = Some(None);
    d.description = Some("".to_string());
    assert_eq!(show_lines(&d).len(), 3);
}
