//! The projects of the group: their listing, the search for one by its
//! name, and the view of one.

use vstd::prelude::*;
use vstd::string::StringExecFns;
use crate::errors::{Error, ErrorView, ParseError};
use crate::http::{is_success, Body, HttpResponse, Reply};
use crate::json::{decode, json_of_bytes, prettify, pretty_of_bytes, Json};
use crate::output::{shown, Line, LineView};
use crate::records::{projects_of, read_projects, Project};
use crate::session::{begins, failure, give_up, join, say, Operation, OperationView, Session,
    Step, StepView, Turn, TurnView};
use crate::text::{decimal, decimal_text, same_text};

verus! {

/// The text of a field as it is shown in a line; `null` for one that is absent.
pub open spec fn or_null(field: Option<String>) -> Seq<char> {
    match field {
        Some(text) => text@,
        None => "null"@,
    }
}

/// The text of a field as it is shown in a line; `null` for one that is absent.
pub fn text_or_null(field: &Option<String>) -> (out: String)
    ensures
        out@ == or_null(*field),
{
    match field {
        Some(text) => text.clone(),
        None => String::from_str("null"),
    }
}

/// The three lines that show `project`.
pub open spec fn project_lines(project: Project) -> Seq<LineView> {
    seq![
        LineView::Text(
            "Project ID: "@ + match project.id {
                Some(id) => decimal(id as nat),
                None => "null"@,
            },
        ),
        LineView::Text("Name: "@ + or_null(project.name)),
        LineView::Text("Repository URL: "@ + or_null(project.http_url_to_repo) + "\n"@),
    ]
}

/// The lines that show `projects`, one after the other.
pub open spec fn projects_lines(projects: Seq<Project>) -> Seq<LineView>
    decreases projects.len(),
{
    if projects.len() == 0 {
        Seq::empty()
    } else {
        projects_lines(projects.drop_last()) + project_lines(projects.last())
    }
}

/// The projects that a body lists: those of a JSON list, and none where
/// the body writes any other JSON value. A body that writes no JSON value
/// cannot be read.
pub open spec fn listed_projects(body: Body) -> Option<Seq<Project>> {
    match body {
        Body::Bytes(bytes) => match json_of_bytes(bytes@) {
            Some(Json::List(items)) => Some(projects_of(items@)),
            Some(_) => Some(Seq::empty()),
            None => None,
        },
        Body::Text(_) => None,
    }
}

/// What the reply to the listing of projects shows, and the projects that
/// it lists or why it lists none.
pub open spec fn listing_of(reply: Reply) -> (Seq<LineView>, Result<Seq<Project>, ErrorView>) {
    match reply {
        Reply::Failed(why) => (Seq::empty(), Err(ErrorView::Transport(why@))),
        Reply::Response(response) => if is_success(response.status) {
            match listed_projects(response.body) {
                Some(projects) => (projects_lines(projects), Ok(projects)),
                None => (Seq::empty(), Err(ErrorView::Parse(ParseError::InvalidBody))),
            }
        } else {
            (
                Seq::empty(),
                Err(
                    ErrorView::HttpStatus {
                        code: response.status,
                        message: "Failed to fetch projects: "@ + response.status_text@,
                    },
                ),
            )
        },
    }
}

/// What came of the listing of projects.
#[derive(Debug, PartialEq, Eq)]
pub struct Listing {
    pub output: Vec<Line>,
    pub projects: Result<Vec<Project>, Error>,
}

impl Listing {
    /// The projects that were listed, or why none were.
    pub open spec fn outcome(self) -> Result<Seq<Project>, ErrorView> {
        match self.projects {
            Ok(projects) => Ok(projects@),
            Err(error) => Err(error@),
        }
    }
}

fn show_project(output: &mut Vec<Line>, project: &Project)
    ensures
        shown(final(output)@) == shown(old(output)@) + project_lines(*project),
{
    let id = match project.id {
        Some(id) => decimal_text(id),
        None => String::from_str("null"),
    };
    say(output, join("Project ID: ", id.as_str()));
    say(output, join("Name: ", text_or_null(&project.name).as_str()));
    let mut url = join("Repository URL: ", text_or_null(&project.http_url_to_repo).as_str());
    url.append("\n");
    say(output, url);
    assert(shown(output@) =~= shown(old(output)@) + project_lines(*project));
}

/// Reads the reply to the listing of the group's projects.
///
/// Where the platform answered with a success, each project of the list is
/// shown and handed back. Where it answered with another status, the
/// listing fails with that status and nothing is shown. It fails too where
/// no response came, or where the body writes no JSON value.
pub fn fetch_all_gitlab_projects(reply: &Reply) -> (listing: Listing)
    ensures
        shown(listing.output@) == listing_of(*reply).0,
        listing.outcome() == listing_of(*reply).1,
{
    let mut output: Vec<Line> = Vec::new();
    assert(shown(output@) =~= Seq::empty());
    match reply {
        Reply::Failed(why) => Listing { output, projects: Err(Error::Transport(why.clone())) },
        Reply::Response(response) => {
            if response.succeeded() {
                let decoded = match &response.body {
                    Body::Bytes(bytes) => decode(bytes),
                    Body::Text(_) => None,
                };
                match decoded {
                    Some(Json::List(items)) => {
                        let projects = read_projects(&items);
                        let mut i: usize = 0;
                        assert(projects@.take(0) =~= Seq::empty());
                        while i < projects.len()
                            invariant
                                i <= projects.len(),
                                shown(output@) == projects_lines(projects@.take(i as int)),
                            decreases projects.len() - i,
                        {
                            show_project(&mut output, &projects[i]);
                            i += 1;
                            assert(projects@.take(i as int).drop_last() =~= projects@.take(
                                i as int - 1,
                            ));
                        }
                        assert(projects@.take(i as int) =~= projects@);
                        Listing { output, projects: Ok(projects) }
                    },
                    Some(_) => Listing { output, projects: Ok(Vec::new()) },
                    None => Listing {
                        output,
                        projects: Err(Error::Parse(ParseError::InvalidBody)),
                    },
                }
            } else {
                Listing {
                    output,
                    projects: Err(
                        Error::HttpStatus {
                            code: response.status,
                            message: join(
                                "Failed to fetch projects: ",
                                response.status_text.as_str(),
                            ),
                        },
                    ),
                }
            }
        },
    }
}

/// Whether `project` has the name `name` and an identifier.
pub open spec fn answers_to(project: Project, name: Seq<char>) -> bool {
    &&& project.name matches Some(held)
    &&& held@ == name
    &&& project.id is Some
}

/// The identifier of the first of `projects` that has the name `name` and
/// an identifier.
pub open spec fn project_id_of(projects: Seq<Project>, name: Seq<char>) -> Option<u64>
    decreases projects.len(),
{
    if projects.len() == 0 {
        None
    } else if answers_to(projects[0], name) {
        projects[0].id
    } else {
        project_id_of(projects.drop_first(), name)
    }
}

/// Finds the identifier of the project called `project_name`.
pub fn fetch_project_id_by_name(projects: &Vec<Project>, project_name: &str) -> (found: Result<
    u64,
    Error,
>)
    ensures
        match found {
            Ok(id) => project_id_of(projects@, project_name@) == Some(id),
            Err(error) => project_id_of(projects@, project_name@) is None && error@
                == ErrorView::NotFound(project_name@),
        },
{
    let mut i: usize = 0;
    assert(projects@.skip(0) =~= projects@);
    while i < projects.len()
        invariant
            i <= projects.len(),
            project_id_of(projects@, project_name@) == project_id_of(
                projects@.skip(i as int),
                project_name@,
            ),
        decreases projects.len() - i,
    {
        let ghost rest = projects@.skip(i as int);
        assert(rest[0] == projects@[i as int]);
        assert(rest.drop_first() =~= projects@.skip(i + 1));
        let project = &projects[i];
        let named = match &project.name {
            Some(held) => same_text(held.as_str(), project_name),
            None => false,
        };
        if named {
            match project.id {
                Some(id) => {
                    return Ok(id);
                },
                None => {},
            }
        }
        i += 1;
    }
    Err(Error::NotFound(String::from_str(project_name)))
}

/// The turn after the reply to the fetching of a project: its data as
/// indented text, or why there is none.
pub open spec fn project_viewed(response: HttpResponse) -> TurnView {
    if is_success(response.status) {
        match response.body {
            Body::Bytes(bytes) => match pretty_of_bytes(bytes@) {
                Some(pretty) => TurnView {
                    output: seq![LineView::Text(pretty)],
                    next: StepView::Finished,
                },
                None => failure(ErrorView::Parse(ParseError::InvalidBody)),
            },
            Body::Text(_) => failure(ErrorView::Parse(ParseError::InvalidBody)),
        }
    } else {
        failure(
            ErrorView::HttpStatus {
                code: response.status,
                message: "Failed to fetch project details: "@ + response.status_text@,
            },
        )
    }
}

/// Reads the reply to the fetching of a project.
pub fn view_project(response: &HttpResponse) -> (turn: Turn)
    ensures
        turn@ == project_viewed(*response),
{
    if response.succeeded() {
        let written = match &response.body {
            Body::Bytes(bytes) => prettify(bytes),
            Body::Text(_) => None,
        };
        match written {
            Some(pretty) => {
                let mut output: Vec<Line> = Vec::new();
                assert(shown(output@) =~= Seq::empty());
                say(&mut output, pretty);
                assert(shown(output@) =~= seq![LineView::Text(pretty@)]);
                Turn { output, next: Step::Finished }
            },
            None => give_up(Error::Parse(ParseError::InvalidBody)),
        }
    } else {
        give_up(
            Error::HttpStatus {
                code: response.status,
                message: join("Failed to fetch project details: ", response.status_text.as_str()),
            },
        )
    }
}

/// Begins the view of the project called `project_name`: its data, as the
/// platform holds them, in indented text.
pub fn fetch_project_by_name(token: &str, project_name: String) -> (begun: (Session, Turn))
    ensures
        begins(begun, token@, project_name@, OperationView::ViewProject),
{
    Session::start(token, project_name.as_str(), Operation::ViewProject)
}

} // verus!
