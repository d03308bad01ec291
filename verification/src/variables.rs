//! The CI/CD variables of a project: their listing, and the setting, the
//! changing and the deleting of one.

use vstd::prelude::*;
use vstd::string::StringExecFns;
use crate::errors::{Error, ErrorView, ParseError};
use crate::http::{is_success, Body, HttpResponse};
use crate::output::{shown, Line, LineView};
use crate::records::{read_variables, variables_of, Variable};
use crate::session::{begins, failure, give_up, join, put, Operation, OperationView, Session,
    Stage, Step, StepView, Turn, TurnView};
use crate::text::{same_text, trim_text, trimmed};

verus! {

/// The turn that shows `output` and ends the operation.
pub open spec fn closing(output: Seq<LineView>) -> TurnView {
    TurnView { output, next: StepView::Finished }
}

/// The turn that shows the one line `line` and ends the operation.
pub fn close_with(line: Line) -> (turn: Turn)
    ensures
        turn@ == closing(seq![line@]),
{
    let mut output: Vec<Line> = Vec::new();
    assert(shown(output@) =~= Seq::empty());
    put(&mut output, line);
    assert(shown(output@) =~= seq![line@]);
    Turn { output, next: Step::Finished }
}

/// The variables that a body lists, where it writes a JSON list.
pub open spec fn listed_variables(body: Body) -> Option<Seq<Variable>> {
    match body.items() {
        Some(items) => Some(variables_of(items)),
        None => None,
    }
}

/// The turn that shows nothing and gives up with the status of `response`,
/// said after `what`.
pub open spec fn refused(what: Seq<char>, response: HttpResponse) -> TurnView {
    failure(
        ErrorView::HttpStatus { code: response.status, message: what + response.status_text@ },
    )
}

/// The turn that shows nothing and gives up with the status of `response`,
/// said after `what`.
pub fn refuse(what: String, response: &HttpResponse) -> (turn: Turn)
    ensures
        turn@ == refused(what@, *response),
{
    let mut message = what;
    message.append(response.status_text.as_str());
    give_up(Error::HttpStatus { code: response.status, message })
}

/// The turn after the reply to the listing of variables: their table, or
/// the status where the platform answered with no success.
pub open spec fn variables_listed(response: HttpResponse) -> TurnView {
    if is_success(response.status) {
        match listed_variables(response.body) {
            Some(variables) => closing(seq![LineView::Variables(variables)]),
            None => failure(ErrorView::Parse(ParseError::InvalidBody)),
        }
    } else {
        refused("Failed to fetch variables for this project. Response="@, response)
    }
}

/// Reads the reply to the listing of variables.
pub fn show_variables(response: &HttpResponse) -> (turn: Turn)
    ensures
        turn@ == variables_listed(*response),
{
    if response.succeeded() {
        match response.body.read_items() {
            Some(items) => close_with(Line::Variables(read_variables(&items))),
            None => give_up(Error::Parse(ParseError::InvalidBody)),
        }
    } else {
        refuse(
            String::from_str("Failed to fetch variables for this project. Response="),
            response,
        )
    }
}

/// What the platform answered, where its answer was read as text.
pub open spec fn answer_shown(body: Body) -> Seq<LineView> {
    match body {
        Body::Text(answer) => seq![LineView::Text(answer@)],
        Body::Bytes(_) => Seq::empty(),
    }
}

/// The turn after the reply to the setting of the variable `key`: that it
/// is set or, where the platform answered with no success, what it
/// answered and then the failure with the status.
pub open spec fn variable_set(key: Seq<char>, response: HttpResponse) -> TurnView {
    if is_success(response.status) {
        closing(seq![LineView::Text("variable "@ + key + " was set successfully"@)])
    } else {
        TurnView {
            output: answer_shown(response.body),
            next: refused("Failed to set variable "@ + key + ": "@, response).next,
        }
    }
}

/// Reads the reply to the setting of the variable `key`.
pub fn confirm_set(key: &str, response: &HttpResponse) -> (turn: Turn)
    ensures
        turn@ == variable_set(key@, *response),
{
    if response.succeeded() {
        let mut said = join("variable ", key);
        said.append(" was set successfully");
        close_with(Line::Text(said))
    } else {
        let mut what = join("Failed to set variable ", key);
        what.append(": ");
        let Turn { output: _, next } = refuse(what, response);
        let mut output: Vec<Line> = Vec::new();
        assert(shown(output@) =~= Seq::empty());
        match &response.body {
            Body::Text(answer) => {
                put(&mut output, Line::Text(answer.clone()));
                assert(shown(output@) =~= seq![LineView::Text(answer@)]);
            },
            Body::Bytes(_) => {},
        }
        Turn { output, next }
    }
}

/// The turn after the reply to the changing of the variable `key`: that it
/// is changed, or the status where the platform answered with no success.
pub open spec fn variable_updated(key: Seq<char>, response: HttpResponse) -> TurnView {
    if is_success(response.status) {
        closing(seq![LineView::Text("variable "@ + key + " was updated successfully"@)])
    } else {
        refused("Failed to update variable "@ + key + ": "@, response)
    }
}

/// Reads the reply to the changing of the variable `key`.
pub fn confirm_update(key: &str, response: &HttpResponse) -> (turn: Turn)
    ensures
        turn@ == variable_updated(key@, *response),
{
    if response.succeeded() {
        let mut said = join("variable ", key);
        said.append(" was updated successfully");
        close_with(Line::Text(said))
    } else {
        let mut what = join("Failed to update variable ", key);
        what.append(": ");
        refuse(what, response)
    }
}

/// The turn after the reply to the deleting of the variable `key`: that it
/// is deleted, or the status where the platform answered with no success.
pub open spec fn variable_deleted(key: Seq<char>, response: HttpResponse) -> TurnView {
    if is_success(response.status) {
        closing(seq![LineView::Text("Variable `"@ + key + "` deleted successfully."@)])
    } else {
        refused("Failed to delete variable: "@, response)
    }
}

/// Reads the reply to the deleting of the variable `key`.
pub fn confirm_delete(key: &str, response: &HttpResponse) -> (turn: Turn)
    ensures
        turn@ == variable_deleted(key@, *response),
{
    if response.succeeded() {
        let mut said = join("Variable `", key);
        said.append("` deleted successfully.");
        close_with(Line::Text(said))
    } else {
        refuse(String::from_str("Failed to delete variable: "), response)
    }
}

/// Begins the listing of the variables of the project called `project_name`.
pub fn list_project_variables(token: &str, project_name: &str) -> (begun: (Session, Turn))
    ensures
        begins(begun, token@, project_name@, OperationView::ListVariables),
{
    Session::start(token, project_name, Operation::ListVariables)
}

/// Begins the setting of the variable `key` of the project called
/// `project_name` to `value`.
pub fn set_project_variables(token: &str, project_name: &str, key: &str, value: &str) -> (begun:
    (Session, Turn))
    ensures
        begins(
            begun,
            token@,
            project_name@,
            OperationView::SetVariable { key: key@, value: value@ },
        ),
{
    Session::start(
        token,
        project_name,
        Operation::SetVariable { key: String::from_str(key), value: String::from_str(value) },
    )
}

/// Begins the changing of the variable `key` of the project called
/// `project_name` to `value`.
pub fn update_project_variables(token: &str, project_name: &str, key: &str, value: &str) -> (begun:
    (Session, Turn))
    ensures
        begins(
            begun,
            token@,
            project_name@,
            OperationView::UpdateVariable { key: key@, value: value@ },
        ),
{
    Session::start(
        token,
        project_name,
        Operation::UpdateVariable { key: String::from_str(key), value: String::from_str(value) },
    )
}

/// What is asked before the variable `key` of the project called
/// `project_name` is deleted.
pub open spec fn delete_question(key: Seq<char>, project_name: Seq<char>) -> Seq<char> {
    "Are you sure you want to delete the variable `"@ + key + "` in project `"@ + project_name
        + "`? Type 'DELETE' to confirm:"@
}

/// What is asked before the variable `key` of the project called
/// `project_name` is deleted.
pub fn delete_prompt(key: &str, project_name: &str) -> (asked: String)
    ensures
        asked@ == delete_question(key@, project_name@),
{
    let mut asked = join("Are you sure you want to delete the variable `", key);
    asked.append("` in project `");
    asked.append(project_name);
    asked.append("`? Type 'DELETE' to confirm:");
    asked
}

/// Whether `answer` confirms a deletion: it is `DELETE`, white space at
/// either end apart.
pub open spec fn confirms(answer: Seq<char>) -> bool {
    trimmed(answer) == "DELETE"@
}

/// Begins the deleting of the variable `key` of the project called
/// `project_name`, where `confirmation` confirms it. Where it does not, the
/// operation ends at once: its one turn says so, and nothing is sent.
pub fn delete_project_variables(
    token: &str,
    project_name: &str,
    key: &str,
    confirmation: &str,
) -> (begun: (Session, Turn))
    ensures
        confirms(confirmation@) ==> begins(
            begun,
            token@,
            project_name@,
            OperationView::DeleteVariable { key: key@ },
        ),
        !confirms(confirmation@) ==> begun.0.stage == Stage::Closed && begun.1@ == closing(
            seq![LineView::Text("Delete operation aborted."@)],
        ),
{
    let operation = Operation::DeleteVariable { key: String::from_str(key) };
    if same_text(trim_text(confirmation).as_str(), "DELETE") {
        Session::start(token, project_name, operation)
    } else {
        (
            Session {
                token: String::from_str(token),
                project_name: String::from_str(project_name),
                operation,
                stage: Stage::Closed,
            },
            close_with(Line::Text(String::from_str("Delete operation aborted."))),
        )
    }
}

} // verus!
