//! The commands of the command line, and the operation that each begins.

use vstd::prelude::*;
use vstd::string::StringExecFns;
use crate::errors::{Error, ErrorView};
use crate::gitlab_login::{fetch_stored_token, stored_token, StoredRead};
use crate::pipelines::{fetch_job_logs, fetch_pipelines_for_project};
use crate::projects::fetch_project_by_name;
use crate::session::{begins, failure, Operation, OperationView, Session, Stage, Turn};
use crate::variables::{list_project_variables, set_project_variables, update_project_variables};

verus! {

/// What was given on the command line.
#[derive(Debug, Clone, PartialEq, Eq)]
pub struct Cli {
    pub command: Commands,
}

/// A command.
#[derive(Debug, Clone, PartialEq, Eq)]
pub enum Commands {
    /// Log in by storing a token.
    Login { token: String },
    /// List and view the projects of the group.
    Projects { action: ProjectActions },
    /// View the pipelines of a project.
    Pipelines { action: PipelineActions },
}

/// What to do with the projects of the group.
#[derive(Debug, Clone, PartialEq, Eq)]
pub enum ProjectActions {
    /// List them all.
    List {  },
    /// Show the one called `name`.
    View { name: String },
    /// Manage the variables of one.
    Variables { action: VariablesActions },
}

/// What to do with the variables of a project.
#[derive(Debug, Clone, PartialEq, Eq)]
pub enum VariablesActions {
    /// List them all.
    List { project_name: String },
    /// Set a new one.
    SetValue { project_name: String, key: String, value: String },
    /// Change the value of one.
    Update { project_name: String, key: String, value: String },
    /// Delete one, once that is confirmed.
    Delete { project_name: String, key: String },
}

/// What to do with the pipelines of a project.
#[derive(Debug, Clone, PartialEq, Eq)]
pub enum PipelineActions {
    /// List the pipelines of a project.
    List {
        project: String,
        last: Option<String>,
        branch: Option<String>,
        status: Option<String>,
        show_jobs: bool,
    },
    /// Trigger a pipeline: the command is taken, and nothing is sent for it.
    Trigger { project: String, branch: String },
    /// View the logs of a job.
    Jobs { action: JobAction },
}

/// What to do with a job.
#[derive(Debug, Clone, PartialEq, Eq)]
pub enum JobAction {
    /// Show its log.
    Logs { project: String, job_id: i64 },
}

/// What is to be done first for a command.
#[derive(Debug, Clone, PartialEq, Eq)]
pub enum Launch {
    /// Store this token.
    StoreToken(String),
    /// Show the first turn of this operation, and go on from there.
    Run(Session, Turn),
    /// Ask whether the variable `key` is to be deleted, and begin the
    /// deleting with the answer.
    Confirm { token: String, project_name: String, key: String },
    /// Give up with this error: the command cannot be run.
    Fail(Error),
    /// There is nothing to do.
    Nothing,
}

impl Commands {
    /// Whether the command needs the stored token: every one but the login.
    pub fn needs_token(&self) -> (yes: bool)
        ensures
            yes == !(self is Login),
    {
        match self {
            Commands::Login { token } => false,
            _ => true,
        }
    }
}

/// Whether `launch` is what the variables' command `action` begins with, in
/// the name of `token`.
pub open spec fn runs_variables(action: VariablesActions, token: Seq<char>, launch: Launch)
    -> bool {
    match action {
        VariablesActions::List { project_name } => launch matches Launch::Run(session, turn)
            && begins((session, turn), token, project_name@, OperationView::ListVariables),
        VariablesActions::SetValue { project_name, key, value } => launch matches Launch::Run(
            session,
            turn,
        ) && begins(
            (session, turn),
            token,
            project_name@,
            OperationView::SetVariable { key: key@, value: value@ },
        ),
        VariablesActions::Update { project_name, key, value } => launch matches Launch::Run(
            session,
            turn,
        ) && begins(
            (session, turn),
            token,
            project_name@,
            OperationView::UpdateVariable { key: key@, value: value@ },
        ),
        VariablesActions::Delete { project_name, key } => launch matches Launch::Confirm {
            token: held,
            project_name: asked,
            key: named,
        } && held@ == token && asked == project_name && named == key,
    }
}

/// Whether `launch` is what the pipelines' command `action` begins with, in
/// the name of `token`. The status that a listing may name is not looked
/// at, and the triggering of a pipeline does nothing.
pub open spec fn runs_pipelines(action: PipelineActions, token: Seq<char>, launch: Launch)
    -> bool {
    match action {
        PipelineActions::List { project, last, branch, status, show_jobs } => {
            &&& launch matches Launch::Run(session, turn)
            &&& session.operation == (Operation::ListPipelines { last, branch, show_jobs })
            &&& branch is Some ==> begins(
                (session, turn),
                token,
                project@,
                (Operation::ListPipelines { last, branch, show_jobs })@,
            )
            &&& branch is None ==> session.stage == Stage::Closed && turn@ == failure(
                ErrorView::MissingBranch,
            )
        },
        PipelineActions::Trigger { project, branch } => launch is Nothing,
        PipelineActions::Jobs { action } => match action {
            JobAction::Logs { project, job_id } => launch matches Launch::Run(session, turn)
                && begins((session, turn), token, project@, OperationView::JobLogs { job_id }),
        },
    }
}

/// Whether `launch` is what `command` begins with, in the name of `token`.
pub open spec fn runs(command: Commands, token: Seq<char>, launch: Launch) -> bool {
    match command {
        Commands::Login { token: given } => launch == Launch::StoreToken(given),
        Commands::Projects { action } => match action {
            ProjectActions::List {  } => launch matches Launch::Run(session, turn) && begins(
                (session, turn),
                token,
                Seq::empty(),
                OperationView::ListProjects,
            ),
            ProjectActions::View { name } => launch matches Launch::Run(session, turn) && begins(
                (session, turn),
                token,
                name@,
                OperationView::ViewProject,
            ),
            ProjectActions::Variables { action } => runs_variables(action, token, launch),
        },
        Commands::Pipelines { action } => runs_pipelines(action, token, launch),
    }
}

/// Whether `launch` is what `command` begins with, given what was read from
/// the place of the token.
///
/// A login stores its token, whatever was read. Every other command runs
/// in the name of the stored token; where there is none, or it could not
/// be read, the command fails and nothing is begun.
pub open spec fn launches(command: Commands, stored: StoredRead, launch: Launch) -> bool {
    if command is Login {
        runs(command, Seq::empty(), launch)
    } else {
        match stored_token(stored) {
            Ok(Some(token)) => runs(command, token, launch),
            Ok(None) => launch matches Launch::Fail(error) && error@ == ErrorView::NotLoggedIn,
            Err(why) => launch matches Launch::Fail(error) && error@ == why,
        }
    }
}

fn run(command: Commands, token: &str) -> (launch: Launch)
    ensures
        runs(command, token@, launch),
{
    match command {
        Commands::Login { token: given } => Launch::StoreToken(given),
        Commands::Projects { action } => match action {
            ProjectActions::List {  } => {
                let (session, turn) = Session::start(token, "", Operation::ListProjects);
                proof {
                    reveal_strlit("");
                    assert(""@ =~= Seq::<char>::empty());
                }
                Launch::Run(session, turn)
            },
            ProjectActions::View { name } => {
                let (session, turn) = fetch_project_by_name(token, name);
                Launch::Run(session, turn)
            },
            ProjectActions::Variables { action } => match action {
                VariablesActions::List { project_name } => {
                    let (session, turn) = list_project_variables(token, project_name.as_str());
                    Launch::Run(session, turn)
                },
                VariablesActions::SetValue { project_name, key, value } => {
                    let (session, turn) = set_project_variables(
                        token,
                        project_name.as_str(),
                        key.as_str(),
                        value.as_str(),
                    );
                    Launch::Run(session, turn)
                },
                VariablesActions::Update { project_name, key, value } => {
                    let (session, turn) = update_project_variables(
                        token,
                        project_name.as_str(),
                        key.as_str(),
                        value.as_str(),
                    );
                    Launch::Run(session, turn)
                },
                VariablesActions::Delete { project_name, key } => Launch::Confirm {
                    token: String::from_str(token),
                    project_name,
                    key,
                },
            },
        },
        Commands::Pipelines { action } => match action {
            PipelineActions::List { project, last, branch, status, show_jobs } => {
                let (session, turn) = fetch_pipelines_for_project(
                    token,
                    project.as_str(),
                    last,
                    branch,
                    show_jobs,
                );
                Launch::Run(session, turn)
            },
            PipelineActions::Trigger { project, branch } => Launch::Nothing,
            PipelineActions::Jobs { action } => match action {
                JobAction::Logs { project, job_id } => {
                    let (session, turn) = fetch_job_logs(token, project.as_str(), job_id);
                    Launch::Run(session, turn)
                },
            },
        },
    }
}

/// Tells what is to be done first for the command of `cli`, given what was
/// read from the place of the token.
pub fn launch(cli: Cli, stored: &StoredRead) -> (launch: Launch)
    ensures
        launches(cli.command, *stored, launch),
{
    let command = cli.command;
    if !command.needs_token() {
        return run(command, "");
    }
    match fetch_stored_token(stored) {
        Ok(Some(token)) => run(command, token.as_str()),
        Ok(None) => Launch::Fail(Error::NotLoggedIn),
        Err(error) => Launch::Fail(error),
    }
}

} // verus!
