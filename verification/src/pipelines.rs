//! The pipelines of a project on a branch, their jobs, and the log of a job.

use vstd::prelude::*;
use vstd::string::StringExecFns;
use crate::errors::{Error, ErrorView, ParseError};
use crate::http::{is_success, jobs_request, jobs_url, request_to, Body, HttpResponse, Method,
    Payload, Reply};
use crate::output::{shown, Line, LineView};
use crate::projects::{or_null, text_or_null};
use crate::records::{jobs_of, pipelines_of, read_jobs, read_pipelines, Pipeline, Status};
use crate::session::{begins, failure, give_up, join, put, say, Operation, OperationView, Session,
    Stage, StageView, Step, StepView, Turn, TurnView};
use crate::style::{classify_line, colored_status, colorize_status, severity_of};
use crate::text::{lines_of, signed_decimal, signed_decimal_text, split_lines, texts};
use crate::window::{filter_pipelines, kept, parse_duration, window_of, Instant};

verus! {

/// The name of the status of `pipeline`; the empty text where it has none.
pub open spec fn status_label(pipeline: Pipeline) -> Seq<char> {
    match pipeline.status {
        Some(status) => status.label(),
        None => Seq::empty(),
    }
}

/// The three lines that sum `pipeline` up: its identifier and its status in
/// colour, when and on what it ran, and where it is to be seen.
pub open spec fn summary(pipeline: Pipeline) -> Seq<LineView> {
    seq![
        LineView::Text(
            "\nPipeline ID "@ + match pipeline.id {
                Some(id) => signed_decimal(id as int),
                None => "null"@,
            } + ": "@ + colored_status(status_label(pipeline)),
        ),
        LineView::Text(
            "Triggered at \""@ + or_null(pipeline.created_at) + "\" on \""@ + or_null(
                pipeline.reference,
            ) + "\" branch"@,
        ),
        LineView::Text("Web URL \""@ + or_null(pipeline.web_url) + "\""@),
    ]
}

/// Whether the jobs of `pipeline` are to be asked for: jobs are wanted, and
/// the pipeline has a status and an identifier.
pub open spec fn asks_jobs(pipeline: Pipeline, show_jobs: bool) -> bool {
    show_jobs && pipeline.status is Some && pipeline.id is Some
}

/// The position, from `from` on, of the first pipeline whose jobs are to be
/// asked for; the number of pipelines where there is none.
pub open spec fn next_stop(pipelines: Seq<Pipeline>, from: int, show_jobs: bool) -> int
    decreases pipelines.len() - from,
{
    if from < 0 || from >= pipelines.len() {
        pipelines.len() as int
    } else if asks_jobs(pipelines[from], show_jobs) {
        from
    } else {
        next_stop(pipelines, from + 1, show_jobs)
    }
}

/// Where the listing stops from `from` on: at the first pipeline whose jobs
/// are to be asked for, past every pipeline whose jobs are not.
pub proof fn lemma_next_stop(pipelines: Seq<Pipeline>, from: int, show_jobs: bool)
    requires
        0 <= from <= pipelines.len(),
    ensures
        from <= next_stop(pipelines, from, show_jobs) <= pipelines.len(),
        next_stop(pipelines, from, show_jobs) < pipelines.len() ==> asks_jobs(
            pipelines[next_stop(pipelines, from, show_jobs)],
            show_jobs,
        ),
        forall|k: int|
            from <= k < next_stop(pipelines, from, show_jobs) ==> !asks_jobs(
                #[trigger] pipelines[k],
                show_jobs,
            ),
    decreases pipelines.len() - from,
{
    if from < pipelines.len() && !asks_jobs(pipelines[from], show_jobs) {
        lemma_next_stop(pipelines, from + 1, show_jobs);
    }
}

/// What is shown of the pipelines from `from` on, up to the first whose
/// jobs are to be asked for: of each that has a status its summary and then
/// an empty line, and of that first one its summary. A pipeline without a
/// status is passed over.
pub open spec fn walk_lines(pipelines: Seq<Pipeline>, from: int, show_jobs: bool) -> Seq<
    LineView,
>
    decreases pipelines.len() - from,
{
    if from < 0 || from >= pipelines.len() {
        Seq::empty()
    } else if pipelines[from].status is None {
        walk_lines(pipelines, from + 1, show_jobs)
    } else if asks_jobs(pipelines[from], show_jobs) {
        summary(pipelines[from])
    } else {
        summary(pipelines[from]) + seq![LineView::Text(Seq::empty())] + walk_lines(
            pipelines,
            from + 1,
            show_jobs,
        )
    }
}

/// The stage and the step after the pipelines before `from` are dealt with.
pub open spec fn onward(
    pipelines: Seq<Pipeline>,
    from: int,
    show_jobs: bool,
    token: Seq<char>,
    project_id: u64,
) -> (StageView, StepView) {
    let stop = next_stop(pipelines, from, show_jobs);
    if 0 <= stop < pipelines.len() && pipelines[stop].id is Some {
        let pipeline_id = pipelines[stop].id->0;
        (
            StageView::Jobs { project_id, pipelines, index: stop, pipeline_id },
            StepView::Send(
                request_to(Method::Get, jobs_url(project_id, pipeline_id), token, Payload::Json),
            ),
        )
    } else {
        (StageView::Closed, StepView::Finished)
    }
}

fn show_summary(output: &mut Vec<Line>, pipeline: &Pipeline, status: &Status)
    requires
        pipeline.status == Some(*status),
    ensures
        shown(final(output)@) == shown(old(output)@) + summary(*pipeline),
{
    let id = match pipeline.id {
        Some(id) => signed_decimal_text(id),
        None => String::from_str("null"),
    };
    let mut first = join("\nPipeline ID ", id.as_str());
    first.append(": ");
    first.append(colorize_status(status.name().as_str()).as_str());
    say(output, first);
    let mut second = join("Triggered at \"", text_or_null(&pipeline.created_at).as_str());
    second.append("\" on \"");
    second.append(text_or_null(&pipeline.reference).as_str());
    second.append("\" branch");
    say(output, second);
    let mut third = join("Web URL \"", text_or_null(&pipeline.web_url).as_str());
    third.append("\"");
    say(output, third);
    assert(shown(output@) =~= shown(old(output)@) + summary(*pipeline));
}

/// Shows the pipelines from `from` on, up to the first whose jobs are to be
/// asked for, and tells where that one stands.
fn walk(pipelines: &Vec<Pipeline>, from: usize, show_jobs: bool, output: &mut Vec<Line>) -> (stop:
    usize)
    requires
        from <= pipelines.len(),
    ensures
        from <= stop <= pipelines.len(),
        stop == next_stop(pipelines@, from as int, show_jobs),
        stop < pipelines.len() ==> asks_jobs(pipelines@[stop as int], show_jobs),
        shown(final(output)@) == shown(old(output)@) + walk_lines(
            pipelines@,
            from as int,
            show_jobs,
        ),
{
    let ghost before = shown(output@);
    let ghost whole = walk_lines(pipelines@, from as int, show_jobs);
    let mut i: usize = from;
    assert(before + whole =~= shown(output@) + walk_lines(pipelines@, i as int, show_jobs));
    while i < pipelines.len()
        invariant
            from <= i <= pipelines.len(),
            next_stop(pipelines@, from as int, show_jobs) == next_stop(
                pipelines@,
                i as int,
                show_jobs,
            ),
            before == shown(old(output)@),
            whole == walk_lines(pipelines@, from as int, show_jobs),
            before + whole == shown(output@) + walk_lines(pipelines@, i as int, show_jobs),
        decreases pipelines.len() - i,
    {
        let pipeline = &pipelines[i];
        let ghost so_far = shown(output@);
        let ghost rest = walk_lines(pipelines@, i + 1, show_jobs);
        match &pipeline.status {
            None => {},
            Some(status) => {
                show_summary(output, pipeline, status);
                if show_jobs && pipeline.id.is_some() {
                    return i;
                }
                say(output, String::new());
                assert(shown(output@) + rest =~= so_far + (summary(*pipeline) + seq![
                    LineView::Text(Seq::empty()),
                ] + rest));
            },
        }
        i += 1;
    }
    assert(shown(output@) + Seq::<LineView>::empty() =~= shown(output@));
    i
}

/// The stage and the step after the pipelines before `from` are dealt
/// with, and what is shown on the way.
fn proceed(
    pipelines: Vec<Pipeline>,
    from: usize,
    show_jobs: bool,
    token: &str,
    project_id: u64,
    output: &mut Vec<Line>,
) -> (next: (Stage, Step))
    requires
        from <= pipelines.len(),
    ensures
        next.0@ == onward(pipelines@, from as int, show_jobs, token@, project_id).0,
        next.1@ == onward(pipelines@, from as int, show_jobs, token@, project_id).1,
        shown(final(output)@) == shown(old(output)@) + walk_lines(
            pipelines@,
            from as int,
            show_jobs,
        ),
{
    let stop = walk(&pipelines, from, show_jobs, output);
    if stop < pipelines.len() {
        match pipelines[stop].id {
            Some(pipeline_id) => {
                let request = jobs_request(token, project_id, pipeline_id);
                return (
                    Stage::Jobs { project_id, pipelines, index: stop, pipeline_id },
                    Step::Send(request),
                );
            },
            None => {},
        }
    }
    (Stage::Closed, Step::Finished)
}

/// The pipelines that a body lists, where it writes a JSON list.
pub open spec fn listed_pipelines(body: Body) -> Option<Seq<Pipeline>> {
    match body.items() {
        Some(items) => Some(pipelines_of(items)),
        None => None,
    }
}

/// `pipelines` cut down to the window that `last` writes, at `now`; all of
/// them where no window is given.
pub open spec fn windowed(pipelines: Seq<Pipeline>, last: Option<String>, now: Instant) -> Result<
    Seq<Pipeline>,
    ParseError,
> {
    match last {
        None => Ok(pipelines),
        Some(written) => match window_of(written@) {
            Ok(window) => Ok(kept(pipelines, window, now)),
            Err(e) => Err(e),
        },
    }
}

/// The stage and the turn after the reply to the listing of pipelines.
///
/// A status that is no success ends the operation with that status, and
/// nothing is shown. So does a body that is no list, and a window that
/// does not read.
pub open spec fn pipelines_listed(
    response: HttpResponse,
    last: Option<String>,
    show_jobs: bool,
    token: Seq<char>,
    project_id: u64,
    now: Instant,
) -> (StageView, TurnView) {
    if !is_success(response.status) {
        (
            StageView::Closed,
            failure(
                ErrorView::HttpStatus {
                    code: response.status,
                    message: "Failed to fetch project pipelines: "@ + response.status_text@,
                },
            ),
        )
    } else {
        match listed_pipelines(response.body) {
            None => (StageView::Closed, failure(ErrorView::Parse(ParseError::InvalidBody))),
            Some(all) => match windowed(all, last, now) {
                Err(e) => (StageView::Closed, failure(ErrorView::Parse(e))),
                Ok(pipelines) => (
                    onward(pipelines, 0, show_jobs, token, project_id).0,
                    TurnView {
                        output: walk_lines(pipelines, 0, show_jobs),
                        next: onward(pipelines, 0, show_jobs, token, project_id).1,
                    },
                ),
            },
        }
    }
}

/// Reads the reply to the listing of pipelines.
pub fn report_pipelines(
    response: &HttpResponse,
    last: &Option<String>,
    show_jobs: bool,
    token: &str,
    project_id: u64,
    now: Instant,
) -> (next: (Stage, Turn))
    ensures
        next.0@ == pipelines_listed(*response, *last, show_jobs, token@, project_id, now).0,
        next.1@ == pipelines_listed(*response, *last, show_jobs, token@, project_id, now).1,
{
    if !response.succeeded() {
        return (
            Stage::Closed,
            give_up(
                Error::HttpStatus {
                    code: response.status,
                    message: join(
                        "Failed to fetch project pipelines: ",
                        response.status_text.as_str(),
                    ),
                },
            ),
        );
    }
    let all = match response.body.read_items() {
        Some(items) => read_pipelines(&items),
        None => {
            return (Stage::Closed, give_up(Error::Parse(ParseError::InvalidBody)));
        },
    };
    let pipelines = match last {
        None => all,
        Some(written) => match parse_duration(written.as_str()) {
            Ok(window) => filter_pipelines(all, window, now),
            Err(e) => {
                return (Stage::Closed, give_up(Error::Parse(e)));
            },
        },
    };
    let mut output: Vec<Line> = Vec::new();
    assert(shown(output@) =~= Seq::empty());
    let ghost lines = walk_lines(pipelines@, 0, show_jobs);
    let (stage, step) = proceed(pipelines, 0, show_jobs, token, project_id, &mut output);
    assert(shown(output@) =~= lines);
    (stage, Turn { output, next: step })
}

/// What the reply to the listing of a pipeline's jobs shows: their table,
/// or a warning that names the pipeline and the status where the platform
/// answered with no success. A body that is no list is an error.
pub open spec fn jobs_lines(response: HttpResponse, pipeline_id: i64) -> Result<
    Seq<LineView>,
    ErrorView,
> {
    if is_success(response.status) {
        match response.body.items() {
            Some(items) => Ok(seq![LineView::Jobs(jobs_of(items))]),
            None => Err(ErrorView::Parse(ParseError::InvalidBody)),
        }
    } else {
        Ok(
            seq![
                LineView::Warning(
                    "Failed to fetch jobs for pipeline "@ + signed_decimal(pipeline_id as int)
                        + ": "@ + response.status_text@,
                ),
            ],
        )
    }
}

/// Where the listing goes on after the pipeline at `index`.
pub open spec fn after_index(pipelines: Seq<Pipeline>, index: int) -> int {
    if 0 <= index < pipelines.len() {
        index + 1
    } else {
        pipelines.len() as int
    }
}

/// The stage and the turn after the reply to the listing of the jobs of the
/// pipeline at `index`.
///
/// A status that is no success is no end: it is said in a warning, and the
/// listing goes on with the next pipeline. Where no response came, or the
/// body of a success is no list, the operation is given up.
pub open spec fn jobs_listed(
    reply: Reply,
    token: Seq<char>,
    project_id: u64,
    pipelines: Seq<Pipeline>,
    index: int,
    pipeline_id: i64,
    show_jobs: bool,
) -> (StageView, TurnView) {
    match reply {
        Reply::Failed(why) => (StageView::Closed, failure(ErrorView::Transport(why@))),
        Reply::Response(response) => match jobs_lines(response, pipeline_id) {
            Err(e) => (StageView::Closed, failure(e)),
            Ok(lines) => {
                let from = after_index(pipelines, index);
                (
                    onward(pipelines, from, show_jobs, token, project_id).0,
                    TurnView {
                        output: lines + seq![LineView::Text(Seq::empty())] + walk_lines(
                            pipelines,
                            from,
                            show_jobs,
                        ),
                        next: onward(pipelines, from, show_jobs, token, project_id).1,
                    },
                )
            },
        },
    }
}

/// A listing of jobs that the platform answers with no success does not
/// end the report: the turn begins with one warning, and what follows is
/// what would follow the table of the jobs.
pub proof fn lemma_failed_jobs_are_a_warning(
    response: HttpResponse,
    token: Seq<char>,
    project_id: u64,
    pipelines: Seq<Pipeline>,
    index: int,
    pipeline_id: i64,
    show_jobs: bool,
)
    requires
        !is_success(response.status),
    ensures
        ({
            let after = jobs_listed(
                Reply::Response(response),
                token,
                project_id,
                pipelines,
                index,
                pipeline_id,
                show_jobs,
            );
            let from = after_index(pipelines, index);
            &&& !(after.1.next is Failed)
            &&& after.1.output.len() >= 2
            &&& after.1.output[0] is Warning
            &&& after.1.output.skip(2) == walk_lines(pipelines, from, show_jobs)
            &&& after.0 == onward(pipelines, from, show_jobs, token, project_id).0
            &&& after.1.next == onward(pipelines, from, show_jobs, token, project_id).1
        }),
{
    let after = jobs_listed(
        Reply::Response(response),
        token,
        project_id,
        pipelines,
        index,
        pipeline_id,
        show_jobs,
    );
    let from = after_index(pipelines, index);
    assert(after.1.output.skip(2) =~= walk_lines(pipelines, from, show_jobs));
}

/// Reads the reply to the listing of the jobs of the pipeline at `index`.
pub fn report_jobs(
    reply: &Reply,
    token: &str,
    project_id: u64,
    pipelines: Vec<Pipeline>,
    index: usize,
    pipeline_id: i64,
    show_jobs: bool,
) -> (next: (Stage, Turn))
    ensures
        next.0@ == jobs_listed(
            *reply,
            token@,
            project_id,
            pipelines@,
            index as int,
            pipeline_id,
            show_jobs,
        ).0,
        next.1@ == jobs_listed(
            *reply,
            token@,
            project_id,
            pipelines@,
            index as int,
            pipeline_id,
            show_jobs,
        ).1,
{
    let response = match reply {
        Reply::Failed(why) => {
            return (Stage::Closed, give_up(Error::Transport(why.clone())));
        },
        Reply::Response(response) => response,
    };
    let mut output: Vec<Line> = Vec::new();
    assert(shown(output@) =~= Seq::empty());
    if response.succeeded() {
        match response.body.read_items() {
            Some(items) => {
                put(&mut output, Line::Jobs(read_jobs(&items)));
            },
            None => {
                return (Stage::Closed, give_up(Error::Parse(ParseError::InvalidBody)));
            },
        }
    } else {
        let mut said = join(
            "Failed to fetch jobs for pipeline ",
            signed_decimal_text(pipeline_id).as_str(),
        );
        said.append(": ");
        said.append(response.status_text.as_str());
        put(&mut output, Line::Warning(said));
    }
    say(&mut output, String::new());
    let from: usize = if index < pipelines.len() { index + 1 } else { pipelines.len() };
    let ghost lines = jobs_lines(*response, pipeline_id)->Ok_0;
    let ghost rest = walk_lines(pipelines@, from as int, show_jobs);
    assert(shown(output@) =~= lines + seq![LineView::Text(Seq::empty())]);
    let (stage, step) = proceed(pipelines, from, show_jobs, token, project_id, &mut output);
    assert(shown(output@) =~= lines + seq![LineView::Text(Seq::empty())] + rest);
    (stage, Turn { output, next: step })
}

/// The lines of the log `trace`, each in the colour of its severity.
pub open spec fn log_lines(trace: Seq<char>) -> Seq<LineView> {
    lines_of(trace).map_values(|line: Seq<char>| LineView::Tinted(line, severity_of(line).tint()))
}

/// The turn after the reply to the fetching of a job's log: every line of
/// the log in its colour, or the status where it is no success.
pub open spec fn trace_fetched(response: HttpResponse) -> TurnView {
    if is_success(response.status) {
        match response.body {
            Body::Text(trace) => TurnView {
                output: log_lines(trace@),
                next: StepView::Finished,
            },
            _ => failure(ErrorView::Parse(ParseError::InvalidBody)),
        }
    } else {
        failure(
            ErrorView::HttpStatus {
                code: response.status,
                message: "Failed to fetch job trace: "@ + response.status_text@,
            },
        )
    }
}

/// The lines of the log `trace`, each in the colour of its severity.
pub fn color_log(trace: &str) -> (output: Vec<Line>)
    ensures
        shown(output@) == log_lines(trace@),
{
    let lines = split_lines(trace);
    let mut output: Vec<Line> = Vec::new();
    let mut i: usize = 0;
    while i < lines.len()
        invariant
            i <= lines.len(),
            output@.len() == i,
            forall|k: int|
                0 <= k < i ==> (#[trigger] output@[k])@ == LineView::Tinted(
                    lines@[k]@,
                    severity_of(lines@[k]@).tint(),
                ),
        decreases lines.len() - i,
    {
        let tint = classify_line(lines[i].as_str()).color();
        output.push(Line::Tinted(lines[i].clone(), tint));
        i += 1;
    }
    assert(shown(output@) =~= log_lines(trace@)) by {
        assert(texts(lines@) == lines_of(trace@));
        assert forall|k: int| 0 <= k < lines@.len() implies lines_of(trace@)[k] == lines@[k]@ by {
            assert(texts(lines@)[k] == lines@[k]@);
        }
    }
    output
}

/// Reads the reply to the fetching of a job's log.
pub fn stream_log(response: &HttpResponse) -> (turn: Turn)
    ensures
        turn@ == trace_fetched(*response),
{
    if response.succeeded() {
        match &response.body {
            Body::Text(trace) => Turn {
                output: color_log(trace.as_str()),
                next: Step::Finished,
            },
            _ => give_up(Error::Parse(ParseError::InvalidBody)),
        }
    } else {
        give_up(
            Error::HttpStatus {
                code: response.status,
                message: join("Failed to fetch job trace: ", response.status_text.as_str()),
            },
        )
    }
}

/// Begins the report on the pipelines of the project called `project_name`
/// on `branch`: those created within the window `last`, where one is given,
/// and with their jobs where `show_jobs` is set.
///
/// Without a branch the operation ends at once with `MissingBranch`, and
/// nothing is sent.
pub fn fetch_pipelines_for_project(
    token: &str,
    project_name: &str,
    last: Option<String>,
    branch: Option<String>,
    show_jobs: bool,
) -> (begun: (Session, Turn))
    ensures
        begun.0.operation == (Operation::ListPipelines { last, branch, show_jobs }),
        branch is Some ==> begins(
            begun,
            token@,
            project_name@,
            (Operation::ListPipelines { last, branch, show_jobs })@,
        ),
        branch is None ==> begun.0.stage == Stage::Closed && begun.1@ == failure(
            ErrorView::MissingBranch,
        ),
{
    let missing = branch.is_none();
    let operation = Operation::ListPipelines { last, branch, show_jobs };
    if missing {
        (
            Session {
                token: String::from_str(token),
                project_name: String::from_str(project_name),
                operation,
                stage: Stage::Closed,
            },
            give_up(Error::MissingBranch),
        )
    } else {
        Session::start(token, project_name, operation)
    }
}

/// Begins the showing of the log of the job `job_id` of the project called
/// `project_name`.
pub fn fetch_job_logs(token: &str, project_name: &str, job_id: i64) -> (begun: (Session, Turn))
    ensures
        begins(begun, token@, project_name@, OperationView::JobLogs { job_id }),
{
    Session::start(token, project_name, Operation::JobLogs { job_id })
}

} // verus!
