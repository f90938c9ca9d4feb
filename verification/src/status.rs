use vstd::prelude::*;
use vstd::string::StringExecFns;
use crate::text::{concat2, concat3, str_eq, texts};

verus! {

/// A workflow transition that Jira offers for an issue.
pub struct Transition {
    pub id: String,
    pub name: String,
}

/// The answer of Jira to a request for the transitions of an issue.
pub struct TransitionResponse {
    pub transitions: Vec<Transition>,
}

/// The name of the workflow status that a state word of the command line
/// stands for: English words and their German aliases.
pub open spec fn status_target(state: Seq<char>) -> Option<Seq<char>> {
    if state == "done"@ {
        Some("Fertig"@)
    } else if state == "start"@ {
        Some("Wird Ausgeführt"@)
    } else if state == "todo"@ {
        Some("Zu erledigen"@)
    } else if state == "review"@ {
        Some("In Review"@)
    } else if state == "waiting"@ {
        Some("Waiting"@)
    } else if state == "fertig"@ {
        Some("Fertig"@)
    } else if state == "wird-ausgefuhrt"@ || state == "wird-ausgeführt"@ {
        Some("Wird Ausgeführt"@)
    } else if state == "erledigen"@ || state == "zu-erledigen"@ {
        Some("Zu erledigen"@)
    } else {
        None
    }
}

/// The workflow status that a state word stands for, if it is known.
pub fn get_status_names(state: &str) -> (res: Option<&'static str>)
    ensures
        match res {
            Some(s) => status_target(state@) == Some(s@),
            None => status_target(state@) is None,
        },
{
    if str_eq(state, "done") {
        Some("Fertig")
    } else if str_eq(state, "start") {
        Some("Wird Ausgeführt")
    } else if str_eq(state, "todo") {
        Some("Zu erledigen")
    } else if str_eq(state, "review") {
        Some("In Review")
    } else if str_eq(state, "waiting") {
        Some("Waiting")
    } else if str_eq(state, "fertig") {
        Some("Fertig")
    } else if str_eq(state, "wird-ausgefuhrt") || str_eq(state, "wird-ausgeführt") {
        Some("Wird Ausgeführt")
    } else if str_eq(state, "erledigen") || str_eq(state, "zu-erledigen") {
        Some("Zu erledigen")
    } else {
        None
    }
}

/// The id of the first transition that is named `target`.
pub fn find_transition_id(transitions: &Vec<Transition>, target: &str) -> (res: Option<String>)
    ensures
        match res {
            Some(id) => exists|i: int|
                0 <= i < transitions@.len() && transitions@[i].name@ == target@ && id@
                    == transitions@[i].id@ && forall|j: int|
                    0 <= j < i ==> transitions@[j].name@ != target@,
            None => forall|i: int|
                0 <= i < transitions@.len() ==> transitions@[i].name@ != target@,
        },
{
    let n = transitions.len();
    for i in 0..n
        invariant
            n == transitions@.len(),
            forall|j: int| 0 <= j < i ==> transitions@[j].name@ != target@,
    {
        if str_eq(transitions[i].name.as_str(), target) {
            return Some(transitions[i].id.clone());
        }
    }
    None
}

/// The lower-case form of a text, by the full Unicode case mapping that
/// `str::to_lowercase` applies.
pub uninterp spec fn lowercase(s: Seq<char>) -> Seq<char>;

/// `str::to_lowercase` from std.
#[verifier::external_body]
fn to_lowercase(s: &str) -> (res: String)
    ensures
        res@ == lowercase(s@),
{
    s.to_lowercase()
}

/// The line that shows which command word leads to a transition.
pub open spec fn command_line_for(name: Seq<char>) -> Seq<char> {
    if name == "Done"@ || name == "Fertig"@ {
        "  done           -> "@ + name
    } else if name == "Started"@ || name == "Wird Ausgeführt"@ {
        "  start          -> "@ + name
    } else if name == "To Do"@ || name == "Zu erledigen"@ {
        "  todo           -> "@ + name
    } else if name == "In Review"@ {
        "  review         -> "@ + name
    } else if name == "Waiting"@ {
        "  waiting        -> "@ + name
    } else {
        "  "@ + lowercase(name) + "           -> "@ + name
    }
}

/// The line that shows which command word leads to the transition `name`.
pub fn available_command_line(name: &str) -> (res: String)
    ensures
        res@ == command_line_for(name@),
{
    if str_eq(name, "Done") || str_eq(name, "Fertig") {
        concat2("  done           -> ", name)
    } else if str_eq(name, "Started") || str_eq(name, "Wird Ausgeführt") {
        concat2("  start          -> ", name)
    } else if str_eq(name, "To Do") || str_eq(name, "Zu erledigen") {
        concat2("  todo           -> ", name)
    } else if str_eq(name, "In Review") {
        concat2("  review         -> ", name)
    } else if str_eq(name, "Waiting") {
        concat2("  waiting        -> ", name)
    } else {
        let lower = to_lowercase(name);
        let mut s = concat3("  ", lower.as_str(), "           -> ");
        s.append(name);
        s
    }
}

/// The lines that list the commands for the transitions of an issue,
/// under a heading.
pub fn available_commands(transitions: &Vec<Transition>) -> (res: Vec<String>)
    ensures
        res@.len() == transitions@.len() + 1,
        res@[0]@ == "\nAvailable commands:"@,
        forall|i: int|
            0 <= i < transitions@.len() ==> #[trigger] res@[i + 1]@ == command_line_for(
                transitions@[i].name@,
            ),
{
    let mut out: Vec<String> = Vec::new();
    out.push(String::from_str("\nAvailable commands:"));
    let n = transitions.len();
    for i in 0..n
        invariant
            n == transitions@.len(),
            out@.len() == i + 1,
            out@[0]@ == "\nAvailable commands:"@,
            forall|j: int|
                0 <= j < i ==> #[trigger] out@[j + 1]@ == command_line_for(transitions@[j].name@),
    {
        out.push(available_command_line(transitions[i].name.as_str()));
    }
    out
}

/// The transitions that the terminal interface offers when it runs without
/// a server.
pub fn mock_transitions() -> (res: Vec<Transition>)
    ensures
        res@.len() == 3,
        res@[0].id@ == "11"@ && res@[0].name@ == "To Do"@,
        res@[1].id@ == "21"@ && res@[1].name@ == "In Progress"@,
        res@[2].id@ == "31"@ && res@[2].name@ == "Done"@,
{
    let mut v: Vec<Transition> = Vec::new();
    v.push(Transition { id: String::from_str("11"), name: String::from_str("To Do") });
    v.push(Transition { id: String::from_str("21"), name: String::from_str("In Progress") });
    v.push(Transition { id: String::from_str("31"), name: String::from_str("Done") });
    v
}

/// The first step of updating a ticket: the workflow status that the state
/// word stands for, or the message for an unknown word (the command then
/// stops with status 1).
pub fn update_start(state: &str) -> (res: Result<&'static str, Vec<String>>)
    ensures
        match status_target(state@) {
            Some(n) => res matches Ok(t) && t@ == n,
            None => res matches Err(lines) && texts(lines@) == seq!["Unknown state: "@ + state@],
        },
{
    match get_status_names(state) {
        Some(name) => Ok(name),
        None => {
            let mut lines: Vec<String> = Vec::new();
            lines.push(concat2("Unknown state: ", state));
            assert(texts(lines@) =~= seq!["Unknown state: "@ + state@]);
            Err(lines)
        },
    }
}

/// The second step of updating a ticket, once its transitions are known.
pub enum UpdatePlan {
    /// Post this transition, then print the message.
    Post { transition_id: String, message: String },
    /// Print these lines as errors and stop with status 1.
    Fail(Vec<String>),
}

/// Picks the transition that an update posts: the first one named `target`,
/// with the message printed afterwards; when there is none, the error and
/// the list of commands for the transitions there are.
pub fn update_plan(state: &str, key: &str, target: &str, transitions: &Vec<Transition>) -> (res:
    UpdatePlan)
    ensures
        (exists|i: int| 0 <= i < transitions@.len() && transitions@[i].name@ == target@) ==> (
        res matches UpdatePlan::Post { transition_id, message } && message@ == "Updated Ticket "@
            + key@ + " to "@ + state@ && exists|i: int|
            0 <= i < transitions@.len() && transitions@[i].name@ == target@ && transition_id@
                == transitions@[i].id@ && forall|j: int|
                0 <= j < i ==> transitions@[j].name@ != target@),
        (forall|i: int| 0 <= i < transitions@.len() ==> transitions@[i].name@ != target@) ==> (
        res matches UpdatePlan::Fail(lines) && lines@.len() == transitions@.len() + 2
            && lines@[0]@ == "No transition found for '"@ + state@ + "' on "@ + key@
            && lines@[1]@ == "\nAvailable commands:"@ && forall|i: int|
            0 <= i < transitions@.len() ==> #[trigger] lines@[i + 2]@ == command_line_for(
                transitions@[i].name@,
            )),
{
    match find_transition_id(transitions, target) {
        Some(id) => {
            let mut message = concat3("Updated Ticket ", key, " to ");
            message.append(state);
            UpdatePlan::Post { transition_id: id, message }
        },
        None => {
            let mut first = concat3("No transition found for '", state, "' on ");
            first.append(key);
            let mut lines: Vec<String> = Vec::new();
            lines.push(first);
            let mut rest = available_commands(transitions);
            let ghost r = rest@;
            lines.append(&mut rest);
            assert forall|i: int| 0 <= i < transitions@.len() implies #[trigger] lines@[i + 2]@
                == command_line_for(transitions@[i].name@) by {
                assert(lines@[i + 2] == r[i + 1]);
            }
            UpdatePlan::Fail(lines)
        },
    }
}

} // verus!
