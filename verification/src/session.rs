//! An operation against the platform as a sequence of turns. Each turn
//! holds what to show and what to do next: a request to send, or the end.
//! The caller shows, sends, and hands the reply back.

use vstd::prelude::*;
use vstd::string::StringExecFns;
use crate::errors::{Error, ErrorView};
use crate::http::{delete_variable_request, pipelines_request, pipelines_url, project_request,
    project_url, projects_request, projects_url, request_to, set_variable_request,
    set_variable_url, trace_request, trace_url, update_variable_request, update_variable_url,
    variable_url, variables_request, variables_url, is_success, HttpRequest, HttpResponse,
    Method, Payload, Reply, RequestView};
use crate::output::{shown, Line, LineView};
use crate::pipelines::{after_index, asks_jobs, jobs_listed, lemma_next_stop, pipelines_listed,
    report_jobs, report_pipelines, stream_log, trace_fetched};
use crate::projects::{fetch_all_gitlab_projects, fetch_project_id_by_name, listing_of,
    project_id_of, project_viewed, view_project, Listing};
use crate::records::Pipeline;
use crate::text::held;
use crate::variables::{answer_shown, confirm_delete, confirm_set, confirm_update, show_variables,
    variable_deleted, variable_set, variable_updated, variables_listed};
use crate::window::Instant;

verus! {

/// What is to be done with a project once it is found.
#[derive(Debug, Clone, PartialEq, Eq)]
pub enum Operation {
    /// Nothing: the listing of the group's projects is all that is shown.
    ListProjects,
    ViewProject,
    ListVariables,
    SetVariable { key: String, value: String },
    UpdateVariable { key: String, value: String },
    DeleteVariable { key: String },
    ListPipelines { last: Option<String>, branch: Option<String>, show_jobs: bool },
    JobLogs { job_id: i64 },
}

/// What an operation holds.
pub enum OperationView {
    ListProjects,
    ViewProject,
    ListVariables,
    SetVariable { key: Seq<char>, value: Seq<char> },
    UpdateVariable { key: Seq<char>, value: Seq<char> },
    DeleteVariable { key: Seq<char> },
    ListPipelines { last: Option<Seq<char>>, branch: Option<Seq<char>>, show_jobs: bool },
    JobLogs { job_id: i64 },
}

impl View for Operation {
    type V = OperationView;

    open spec fn view(&self) -> OperationView {
        match self {
            Operation::ListProjects => OperationView::ListProjects,
            Operation::ViewProject => OperationView::ViewProject,
            Operation::ListVariables => OperationView::ListVariables,
            Operation::SetVariable { key, value } => OperationView::SetVariable {
                key: key@,
                value: value@,
            },
            Operation::UpdateVariable { key, value } => OperationView::UpdateVariable {
                key: key@,
                value: value@,
            },
            Operation::DeleteVariable { key } => OperationView::DeleteVariable { key: key@ },
            Operation::ListPipelines { last, branch, show_jobs } => OperationView::ListPipelines {
                last: held(*last),
                branch: held(*branch),
                show_jobs: *show_jobs,
            },
            Operation::JobLogs { job_id } => OperationView::JobLogs { job_id: *job_id },
        }
    }
}

/// How far an operation has come.
#[derive(Debug, Clone, PartialEq, Eq)]
pub enum Stage {
    /// The listing of the group's projects was asked for.
    Resolving,
    /// The project is found and the operation's own request was sent.
    Working { project_id: u64 },
    /// The pipelines before `index` are shown, and so is the summary of the
    /// one at `index`; its jobs were asked for.
    Jobs { project_id: u64, pipelines: Vec<Pipeline>, index: usize, pipeline_id: i64 },
    /// The operation has ended.
    Closed,
}

/// What a stage holds.
pub enum StageView {
    Resolving,
    Working { project_id: u64 },
    Jobs { project_id: u64, pipelines: Seq<Pipeline>, index: int, pipeline_id: i64 },
    Closed,
}

impl View for Stage {
    type V = StageView;

    open spec fn view(&self) -> StageView {
        match self {
            Stage::Resolving => StageView::Resolving,
            Stage::Working { project_id } => StageView::Working { project_id: *project_id },
            Stage::Jobs { project_id, pipelines, index, pipeline_id } => StageView::Jobs {
                project_id: *project_id,
                pipelines: pipelines@,
                index: *index as int,
                pipeline_id: *pipeline_id,
            },
            Stage::Closed => StageView::Closed,
        }
    }
}

/// An operation under way.
#[derive(Debug, Clone, PartialEq, Eq)]
pub struct Session {
    pub token: String,
    pub project_name: String,
    pub operation: Operation,
    pub stage: Stage,
}

/// What to do after a turn's output is shown.
#[derive(Debug, Clone, PartialEq, Eq)]
pub enum Step {
    /// Send the request and hand back what came of it.
    Send(HttpRequest),
    /// The operation is done.
    Finished,
    /// The operation is given up.
    Failed(Error),
}

/// What a step holds.
pub enum StepView {
    Send(RequestView),
    Finished,
    Failed(ErrorView),
}

impl View for Step {
    type V = StepView;

    open spec fn view(&self) -> StepView {
        match self {
            Step::Send(request) => StepView::Send(request@),
            Step::Finished => StepView::Finished,
            Step::Failed(error) => StepView::Failed(error@),
        }
    }
}

/// One turn of an operation: what to show, then what to do.
#[derive(Debug, Clone, PartialEq, Eq)]
pub struct Turn {
    pub output: Vec<Line>,
    pub next: Step,
}

/// What a turn holds.
pub struct TurnView {
    pub output: Seq<LineView>,
    pub next: StepView,
}

impl View for Turn {
    type V = TurnView;

    open spec fn view(&self) -> TurnView {
        TurnView { output: shown(self.output@), next: self.next@ }
    }
}

/// Whether the stage `stage` fits the operation `operation`: a request of
/// its own was sent for an operation that has one only, and jobs are
/// awaited only of a pipeline whose jobs are to be asked for.
pub open spec fn stage_fits(stage: StageView, operation: Operation) -> bool {
    match stage {
        StageView::Resolving => true,
        StageView::Working { project_id } => !(operation is ListProjects),
        StageView::Jobs { project_id, pipelines, index, pipeline_id } => {
            &&& 0 <= index < pipelines.len()
            &&& asks_jobs(pipelines[index], wants_jobs(operation))
            &&& pipelines[index].id == Some(pipeline_id)
        },
        StageView::Closed => true,
    }
}

/// The turn that shows nothing and gives up with `error`.
pub open spec fn failure(error: ErrorView) -> TurnView {
    TurnView { output: Seq::empty(), next: StepView::Failed(error) }
}

/// Puts `line` at the end of `output`.
pub fn put(output: &mut Vec<Line>, line: Line)
    ensures
        shown(final(output)@) == shown(old(output)@).push(line@),
{
    output.push(line);
    assert(shown(output@) =~= shown(old(output)@).push(line@));
}

/// Puts the line of text `text` at the end of `output`.
pub fn say(output: &mut Vec<Line>, text: String)
    ensures
        shown(final(output)@) == shown(old(output)@).push(LineView::Text(text@)),
{
    put(output, Line::Text(text));
}

/// The text `a` followed by the text `b`.
pub fn join(a: &str, b: &str) -> (out: String)
    ensures
        out@ == a@ + b@,
{
    let mut out = String::from_str(a);
    out.append(b);
    out
}

/// The turn that shows nothing and gives up with `error`.
pub fn give_up(error: Error) -> (turn: Turn)
    ensures
        turn@ == failure(error@),
{
    let output: Vec<Line> = Vec::new();
    assert(shown(output@) =~= Seq::empty());
    Turn { output, next: Step::Failed(error) }
}

/// The turn that opens an operation in the name of `token`: it shows
/// nothing and asks for the listing of the group's projects.
pub open spec fn opening(token: Seq<char>) -> TurnView {
    TurnView {
        output: Seq::empty(),
        next: StepView::Send(request_to(Method::Get, projects_url(), token, Payload::Json)),
    }
}

/// Whether `begun` is the operation `operation` on the project called
/// `project_name`, in the name of `token`, at its first turn.
pub open spec fn begins(
    begun: (Session, Turn),
    token: Seq<char>,
    project_name: Seq<char>,
    operation: OperationView,
) -> bool {
    &&& begun.0.token@ == token
    &&& begun.0.project_name@ == project_name
    &&& begun.0.operation@ == operation
    &&& begun.0.stage == Stage::Resolving
    &&& begun.0.well_formed()
    &&& begun.1@ == opening(token)
}

/// The step that follows the finding of the project `id`: the operation's
/// own request. Pipelines without a branch are refused, and the listing of
/// projects has nothing to follow it.
pub open spec fn first_step(operation: Operation, token: Seq<char>, id: u64) -> StepView {
    match operation {
        Operation::ListProjects => StepView::Finished,
        Operation::ViewProject => StepView::Send(
            request_to(Method::Get, project_url(id), token, Payload::Json),
        ),
        Operation::ListVariables => StepView::Send(
            request_to(Method::Get, variables_url(id), token, Payload::Json),
        ),
        Operation::SetVariable { key, value } => StepView::Send(
            request_to(Method::Post, set_variable_url(id, key@, value@), token, Payload::Text),
        ),
        Operation::UpdateVariable { key, value } => StepView::Send(
            request_to(Method::Put, update_variable_url(id, key@, value@), token, Payload::Text),
        ),
        Operation::DeleteVariable { key } => StepView::Send(
            request_to(Method::Delete, variable_url(id, key@), token, Payload::Text),
        ),
        Operation::ListPipelines { last, branch, show_jobs } => match branch {
            Some(name) => StepView::Send(
                request_to(Method::Get, pipelines_url(id, name@), token, Payload::Json),
            ),
            None => StepView::Failed(ErrorView::MissingBranch),
        },
        Operation::JobLogs { job_id } => StepView::Send(
            request_to(Method::Get, trace_url(id, job_id), token, Payload::Text),
        ),
    }
}

/// The stage in which the answer to `step` is awaited.
pub open spec fn stage_for(step: StepView, project_id: u64) -> StageView {
    if step is Send {
        StageView::Working { project_id }
    } else {
        StageView::Closed
    }
}

/// The stage and the turn after the reply to the listing of projects.
///
/// What the listing shows is shown. Then the project is looked for by its
/// name: where it is found the operation's own request follows, and where
/// it is not the operation ends with `NotFound`.
pub open spec fn resolved(
    token: Seq<char>,
    project_name: Seq<char>,
    operation: Operation,
    reply: Reply,
) -> (StageView, TurnView) {
    let output = listing_of(reply).0;
    match listing_of(reply).1 {
        Err(error) => (StageView::Closed, TurnView { output, next: StepView::Failed(error) }),
        Ok(projects) => if operation is ListProjects {
            (StageView::Closed, TurnView { output, next: StepView::Finished })
        } else {
            match project_id_of(projects, project_name) {
                None => (
                    StageView::Closed,
                    TurnView { output, next: StepView::Failed(ErrorView::NotFound(project_name)) },
                ),
                Some(id) => (
                    stage_for(first_step(operation, token, id), id),
                    TurnView { output, next: first_step(operation, token, id) },
                ),
            }
        },
    }
}

/// Where no project has the name that was asked for, the operation ends
/// with `NotFound` and sends nothing more.
pub proof fn lemma_unknown_project_ends(
    token: Seq<char>,
    project_name: Seq<char>,
    operation: Operation,
    reply: Reply,
)
    requires
        !(operation is ListProjects),
        listing_of(reply).1 matches Ok(projects) && project_id_of(projects, project_name) is None,
    ensures
        resolved(token, project_name, operation, reply).0 == StageView::Closed,
        resolved(token, project_name, operation, reply).1.next == StepView::Failed(
            ErrorView::NotFound(project_name),
        ),
{
}

/// The stage and the turn after the reply to the operation's own request.
pub open spec fn worked(
    token: Seq<char>,
    operation: Operation,
    project_id: u64,
    reply: Reply,
    now: Instant,
) -> (StageView, TurnView) {
    match reply {
        Reply::Failed(why) => (StageView::Closed, failure(ErrorView::Transport(why@))),
        Reply::Response(response) => match operation {
            Operation::ListProjects => (
                StageView::Closed,
                TurnView { output: Seq::empty(), next: StepView::Finished },
            ),
            Operation::ViewProject => (StageView::Closed, project_viewed(response)),
            Operation::ListVariables => (StageView::Closed, variables_listed(response)),
            Operation::SetVariable { key, value } => (
                StageView::Closed,
                variable_set(key@, response),
            ),
            Operation::UpdateVariable { key, value } => (
                StageView::Closed,
                variable_updated(key@, response),
            ),
            Operation::DeleteVariable { key } => (
                StageView::Closed,
                variable_deleted(key@, response),
            ),
            Operation::ListPipelines { last, branch, show_jobs } => pipelines_listed(
                response,
                last,
                show_jobs,
                token,
                project_id,
                now,
            ),
            Operation::JobLogs { job_id } => (StageView::Closed, trace_fetched(response)),
        },
    }
}

/// Whether the operation wants the jobs of each pipeline shown.
pub open spec fn wants_jobs(operation: Operation) -> bool {
    match operation {
        Operation::ListPipelines { last, branch, show_jobs } => show_jobs,
        _ => false,
    }
}

fn first_step_of(operation: &Operation, token: &str, id: u64) -> (step: Step)
    ensures
        step@ == first_step(*operation, token@, id),
{
    match operation {
        Operation::ListProjects => Step::Finished,
        Operation::ViewProject => Step::Send(project_request(token, id)),
        Operation::ListVariables => Step::Send(variables_request(token, id)),
        Operation::SetVariable { key, value } => Step::Send(
            set_variable_request(token, id, key.as_str(), value.as_str()),
        ),
        Operation::UpdateVariable { key, value } => Step::Send(
            update_variable_request(token, id, key.as_str(), value.as_str()),
        ),
        Operation::DeleteVariable { key } => Step::Send(
            delete_variable_request(token, id, key.as_str()),
        ),
        Operation::ListPipelines { last, branch, show_jobs } => match branch {
            Some(name) => Step::Send(pipelines_request(token, id, name.as_str())),
            None => Step::Failed(Error::MissingBranch),
        },
        Operation::JobLogs { job_id } => Step::Send(trace_request(token, id, *job_id)),
    }
}

fn resolve(token: &str, project_name: &str, operation: &Operation, reply: &Reply) -> (next: (
    Stage,
    Turn,
))
    ensures
        next.0@ == resolved(token@, project_name@, *operation, *reply).0,
        next.1@ == resolved(token@, project_name@, *operation, *reply).1,
{
    let listing = fetch_all_gitlab_projects(reply);
    let Listing { output, projects } = listing;
    let projects = match projects {
        Err(error) => {
            return (Stage::Closed, Turn { output, next: Step::Failed(error) });
        },
        Ok(projects) => projects,
    };
    match operation {
        Operation::ListProjects => {
            return (Stage::Closed, Turn { output, next: Step::Finished });
        },
        _ => {},
    }
    match fetch_project_id_by_name(&projects, project_name) {
        Err(error) => (Stage::Closed, Turn { output, next: Step::Failed(error) }),
        Ok(id) => {
            let step = first_step_of(operation, token, id);
            let stage = match &step {
                Step::Send(_) => Stage::Working { project_id: id },
                _ => Stage::Closed,
            };
            (stage, Turn { output, next: step })
        },
    }
}

fn work(token: &str, operation: &Operation, project_id: u64, reply: &Reply, now: Instant) -> (next:
    (Stage, Turn))
    ensures
        next.0@ == worked(token@, *operation, project_id, *reply, now).0,
        next.1@ == worked(token@, *operation, project_id, *reply, now).1,
{
    let response = match reply {
        Reply::Failed(why) => {
            return (Stage::Closed, give_up(Error::Transport(why.clone())));
        },
        Reply::Response(response) => response,
    };
    match operation {
        Operation::ListProjects => {
            let output: Vec<Line> = Vec::new();
            assert(shown(output@) =~= Seq::empty());
            (Stage::Closed, Turn { output, next: Step::Finished })
        },
        Operation::ViewProject => (Stage::Closed, view_project(response)),
        Operation::ListVariables => (Stage::Closed, show_variables(response)),
        Operation::SetVariable { key, value } => (
            Stage::Closed,
            confirm_set(key.as_str(), response),
        ),
        Operation::UpdateVariable { key, value } => (
            Stage::Closed,
            confirm_update(key.as_str(), response),
        ),
        Operation::DeleteVariable { key } => (Stage::Closed, confirm_delete(key.as_str(), response)),
        Operation::ListPipelines { last, branch, show_jobs } => report_pipelines(
            response,
            last,
            *show_jobs,
            token,
            project_id,
            now,
        ),
        Operation::JobLogs { job_id } => (Stage::Closed, stream_log(response)),
    }
}

impl Session {
    /// Begins an operation on the project called `project_name`: the first
    /// turn shows nothing and asks for the listing of the group's projects.
    pub fn start(token: &str, project_name: &str, operation: Operation) -> (begun: (
        Session,
        Turn,
    ))
        ensures
            begins(begun, token@, project_name@, operation@),
            begun.0.operation == operation,
    {
        let request = projects_request(token);
        let output: Vec<Line> = Vec::new();
        assert(shown(output@) =~= Seq::empty());
        (
            Session {
                token: String::from_str(token),
                project_name: String::from_str(project_name),
                operation,
                stage: Stage::Resolving,
            },
            Turn { output, next: Step::Send(request) },
        )
    }

    /// Whether the stage of the session fits its operation.
    pub open spec fn well_formed(self) -> bool {
        stage_fits(self.stage@, self.operation)
    }

    /// The stage and the turn that follow when `reply` comes in at `now`.
    pub open spec fn after(self, reply: Reply, now: Instant) -> (StageView, TurnView) {
        match self.stage {
            Stage::Resolving => resolved(self.token@, self.project_name@, self.operation, reply),
            Stage::Working { project_id } => worked(
                self.token@,
                self.operation,
                project_id,
                reply,
                now,
            ),
            Stage::Jobs { project_id, pipelines, index, pipeline_id } => jobs_listed(
                reply,
                self.token@,
                project_id,
                pipelines@,
                index as int,
                pipeline_id,
                wants_jobs(self.operation),
            ),
            Stage::Closed => (
                StageView::Closed,
                TurnView { output: Seq::empty(), next: StepView::Finished },
            ),
        }
    }

    /// Whatever the reply, the stage that follows fits the operation, and
    /// a request is sent in it exactly where an answer is awaited.
    pub proof fn lemma_after_fits(self, reply: Reply, now: Instant)
        ensures
            stage_fits(self.after(reply, now).0, self.operation),
            self.after(reply, now).1.next is Send <==> !(self.after(reply, now).0 is Closed),
    {
        match self.stage {
            Stage::Resolving => {},
            Stage::Working { project_id } => {
                if let Reply::Response(response) = reply {
                    if let Operation::ListPipelines { last, branch, show_jobs } = self.operation {
                        let listed = crate::pipelines::listed_pipelines(response.body);
                        if crate::http::is_success(response.status) && listed is Some {
                            let cut = crate::pipelines::windowed(listed->0, last, now);
                            if cut is Ok {
                                lemma_next_stop(cut->Ok_0, 0, show_jobs);
                            }
                        }
                    }
                }
            },
            Stage::Jobs { project_id, pipelines, index, pipeline_id } => {
                lemma_next_stop(
                    pipelines@,
                    after_index(pipelines@, index as int),
                    wants_jobs(self.operation),
                );
            },
            Stage::Closed => {},
        }
    }

    /// A response that is no success to the listing of projects, or to the
    /// operation's own request, ends the operation with the status of the
    /// response. Nothing is shown, but for what the platform answered where
    /// a variable could not be set.
    pub proof fn lemma_refusal_ends(self, response: HttpResponse, now: Instant)
        requires
            self.well_formed(),
            self.stage is Resolving || self.stage is Working,
            !is_success(response.status),
        ensures
            self.after(Reply::Response(response), now).0 == StageView::Closed,
            self.after(Reply::Response(response), now).1.next matches StepView::Failed(
                ErrorView::HttpStatus { code, message },
            ) && code == response.status,
            self.after(Reply::Response(response), now).1.output == (if self.stage is Working
                && self.operation is SetVariable {
                answer_shown(response.body)
            } else {
                Seq::<LineView>::empty()
            }),
    {
    }

    /// Takes the reply to the request of the last turn, which came in at
    /// `now`, and gives the next turn. The token, the name of the project
    /// and the operation stay as they are, and the stage that follows fits
    /// the operation.
    pub fn advance(self, reply: Reply, now: Instant) -> (next: (Session, Turn))
        ensures
            next.0.token == self.token,
            next.0.project_name == self.project_name,
            next.0.operation == self.operation,
            next.0.stage@ == self.after(reply, now).0,
            next.1@ == self.after(reply, now).1,
            next.0.well_formed(),
    {
        proof {
            self.lemma_after_fits(reply, now);
        }
        let Session { token, project_name, operation, stage } = self;
        let (stage, turn) = match stage {
            Stage::Resolving => resolve(token.as_str(), project_name.as_str(), &operation, &reply),
            Stage::Working { project_id } => work(
                token.as_str(),
                &operation,
                project_id,
                &reply,
                now,
            ),
            Stage::Jobs { project_id, pipelines, index, pipeline_id } => {
                let show_jobs = match &operation {
                    Operation::ListPipelines { last, branch, show_jobs } => *show_jobs,
                    _ => false,
                };
                report_jobs(
                    &reply,
                    token.as_str(),
                    project_id,
                    pipelines,
                    index,
                    pipeline_id,
                    show_jobs,
                )
            },
            Stage::Closed => {
                let output: Vec<Line> = Vec::new();
                assert(shown(output@) =~= Seq::empty());
                (Stage::Closed, Turn { output, next: Step::Finished })
            },
        };
        (Session { token, project_name, operation, stage }, turn)
    }
}

} // verus!
