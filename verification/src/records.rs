//! The records that the platform's responses hold: projects, pipelines,
//! jobs and variables, each read from a decoded response value.

use vstd::prelude::*;
use crate::json::{copy_text, Json};
use crate::text::same_text;

verus! {

/// The state of a pipeline or of a job.
#[derive(Debug, Clone, PartialEq, Eq)]
pub enum Status {
    Success,
    Failed,
    Running,
    Pending,
    Canceled,
    Skipped,
    /// Any other state, under the name that the platform gave it.
    Other(String),
}

/// The state that the platform calls `name`, where it is one of the six
/// that have a variant of their own.
pub open spec fn known_status(name: Seq<char>) -> Option<Status> {
    if name == "success"@ {
        Some(Status::Success)
    } else if name == "failed"@ {
        Some(Status::Failed)
    } else if name == "running"@ {
        Some(Status::Running)
    } else if name == "pending"@ {
        Some(Status::Pending)
    } else if name == "canceled"@ {
        Some(Status::Canceled)
    } else if name == "skipped"@ {
        Some(Status::Skipped)
    } else {
        None
    }
}

/// The state that the platform calls `name`.
pub open spec fn status_of(name: String) -> Status {
    match known_status(name@) {
        Some(known) => known,
        None => Status::Other(name),
    }
}

/// The state of a record that may have none.
pub open spec fn status_of_field(name: Option<String>) -> Option<Status> {
    match name {
        Some(n) => Some(status_of(n)),
        None => None,
    }
}

impl Status {
    /// The name that the platform gives this state.
    pub open spec fn label(self) -> Seq<char> {
        match self {
            Status::Success => "success"@,
            Status::Failed => "failed"@,
            Status::Running => "running"@,
            Status::Pending => "pending"@,
            Status::Canceled => "canceled"@,
            Status::Skipped => "skipped"@,
            Status::Other(name) => name@,
        }
    }

    /// The state that the platform calls `name`.
    pub fn from_name(name: String) -> (status: Status)
        ensures
            status == status_of(name),
    {
        if same_text(name.as_str(), "success") {
            Status::Success
        } else if same_text(name.as_str(), "failed") {
            Status::Failed
        } else if same_text(name.as_str(), "running") {
            Status::Running
        } else if same_text(name.as_str(), "pending") {
            Status::Pending
        } else if same_text(name.as_str(), "canceled") {
            Status::Canceled
        } else if same_text(name.as_str(), "skipped") {
            Status::Skipped
        } else {
            Status::Other(name)
        }
    }

    /// The state that the platform calls `name`.
    pub fn parse(name: &str) -> (status: Status)
        ensures
            match known_status(name@) {
                Some(known) => status == known,
                None => status matches Status::Other(held) && held@ == name@,
            },
    {
        Status::from_name(name.to_owned())
    }

    /// The name that the platform gives this state.
    pub fn name(&self) -> (name: String)
        ensures
            name@ == self.label(),
    {
        match self {
            Status::Success => "success".to_owned(),
            Status::Failed => "failed".to_owned(),
            Status::Running => "running".to_owned(),
            Status::Pending => "pending".to_owned(),
            Status::Canceled => "canceled".to_owned(),
            Status::Skipped => "skipped".to_owned(),
            Status::Other(name) => name.clone(),
        }
    }

    /// A copy of this state.
    pub fn duplicate(&self) -> (copy: Status)
        ensures
            copy == *self,
    {
        match self {
            Status::Success => Status::Success,
            Status::Failed => Status::Failed,
            Status::Running => Status::Running,
            Status::Pending => Status::Pending,
            Status::Canceled => Status::Canceled,
            Status::Skipped => Status::Skipped,
            Status::Other(name) => Status::Other(name.clone()),
        }
    }
}

/// A state keeps the name it was read from.
pub proof fn lemma_status_keeps_name(name: String)
    ensures
        status_of(name).label() == name@,
{
}

fn copy_status(status: &Option<Status>) -> (copy: Option<Status>)
    ensures
        copy == *status,
{
    match status {
        Some(s) => Some(s.duplicate()),
        None => None,
    }
}

fn read_status(record: &Json) -> (status: Option<Status>)
    ensures
        status == status_of_field(record.text_at("status"@)),
{
    match record.find_text("status") {
        Some(name) => Some(Status::from_name(name)),
        None => None,
    }
}

/// A project of the group.
#[derive(Debug, Clone, PartialEq, Eq)]
pub struct Project {
    pub id: Option<u64>,
    pub name: Option<String>,
    pub http_url_to_repo: Option<String>,
}

/// The project that `record` describes.
pub open spec fn project_of(record: Json) -> Project {
    Project {
        id: record.natural_at("id"@),
        name: record.text_at("name"@),
        http_url_to_repo: record.text_at("http_url_to_repo"@),
    }
}

impl Project {
    /// The project that `record` describes.
    pub fn from_json(record: &Json) -> (project: Project)
        ensures
            project == project_of(*record),
    {
        Project {
            id: record.find_natural("id"),
            name: record.find_text("name"),
            http_url_to_repo: record.find_text("http_url_to_repo"),
        }
    }

    /// A copy of this project.
    pub fn duplicate(&self) -> (copy: Project)
        ensures
            copy == *self,
    {
        Project {
            id: self.id,
            name: copy_text(&self.name),
            http_url_to_repo: copy_text(&self.http_url_to_repo),
        }
    }
}

/// One run of a project's pipeline on a branch or tag.
#[derive(Debug, Clone, PartialEq, Eq)]
pub struct Pipeline {
    pub id: Option<i64>,
    pub status: Option<Status>,
    /// The branch or tag that the pipeline ran on.
    pub reference: Option<String>,
    pub created_at: Option<String>,
    pub web_url: Option<String>,
}

/// The pipeline that `record` describes.
pub open spec fn pipeline_of(record: Json) -> Pipeline {
    Pipeline {
        id: record.integer_at("id"@),
        status: status_of_field(record.text_at("status"@)),
        reference: record.text_at("ref"@),
        created_at: record.text_at("created_at"@),
        web_url: record.text_at("web_url"@),
    }
}

impl Pipeline {
    /// The pipeline that `record` describes.
    pub fn from_json(record: &Json) -> (pipeline: Pipeline)
        ensures
            pipeline == pipeline_of(*record),
    {
        Pipeline {
            id: record.find_integer("id"),
            status: read_status(record),
            reference: record.find_text("ref"),
            created_at: record.find_text("created_at"),
            web_url: record.find_text("web_url"),
        }
    }

    /// A copy of this pipeline.
    pub fn duplicate(&self) -> (copy: Pipeline)
        ensures
            copy == *self,
    {
        Pipeline {
            id: self.id,
            status: copy_status(&self.status),
            reference: copy_text(&self.reference),
            created_at: copy_text(&self.created_at),
            web_url: copy_text(&self.web_url),
        }
    }
}

/// One unit of work of a pipeline.
#[derive(Debug, Clone, PartialEq, Eq)]
pub struct Job {
    pub id: Option<i64>,
    pub name: Option<String>,
    pub stage: Option<String>,
    pub status: Option<Status>,
    /// The branch or tag that the job ran on.
    pub reference: Option<String>,
    /// The seconds that the job ran, in their string form.
    pub duration: Option<String>,
    pub created_at: Option<String>,
    pub finished_at: Option<String>,
    pub web_url: Option<String>,
}

/// The job that `record` describes.
pub open spec fn job_of(record: Json) -> Job {
    Job {
        id: record.integer_at("id"@),
        name: record.text_at("name"@),
        stage: record.text_at("stage"@),
        status: status_of_field(record.text_at("status"@)),
        reference: record.text_at("ref"@),
        duration: record.number_shown_at("duration"@),
        created_at: record.text_at("created_at"@),
        finished_at: record.text_at("finished_at"@),
        web_url: record.text_at("web_url"@),
    }
}

impl Job {
    /// The job that `record` describes.
    pub fn from_json(record: &Json) -> (job: Job)
        ensures
            job == job_of(*record),
    {
        Job {
            id: record.find_integer("id"),
            name: record.find_text("name"),
            stage: record.find_text("stage"),
            status: read_status(record),
            reference: record.find_text("ref"),
            duration: record.find_number_shown("duration"),
            created_at: record.find_text("created_at"),
            finished_at: record.find_text("finished_at"),
            web_url: record.find_text("web_url"),
        }
    }
}

/// A CI/CD variable of a project.
#[derive(Debug, Clone, PartialEq, Eq)]
pub struct Variable {
    pub key: Option<String>,
    pub value: Option<String>,
}

/// The variable that `record` describes.
pub open spec fn variable_of(record: Json) -> Variable {
    Variable { key: record.text_at("key"@), value: record.text_at("value"@) }
}

impl Variable {
    /// The variable that `record` describes.
    pub fn from_json(record: &Json) -> (variable: Variable)
        ensures
            variable == variable_of(*record),
    {
        Variable { key: record.find_text("key"), value: record.find_text("value") }
    }
}

/// A record that is read from a value of a response.
pub trait Record: Sized {
    /// The record that `value` describes.
    spec fn described(value: Json) -> Self;

    /// Reads the record that `value` describes.
    fn read(value: &Json) -> (record: Self)
        ensures
            record == Self::described(*value),
    ;
}

impl Record for Project {
    open spec fn described(value: Json) -> Project {
        project_of(value)
    }

    fn read(value: &Json) -> (record: Project) {
        Project::from_json(value)
    }
}

impl Record for Pipeline {
    open spec fn described(value: Json) -> Pipeline {
        pipeline_of(value)
    }

    fn read(value: &Json) -> (record: Pipeline) {
        Pipeline::from_json(value)
    }
}

impl Record for Job {
    open spec fn described(value: Json) -> Job {
        job_of(value)
    }

    fn read(value: &Json) -> (record: Job) {
        Job::from_json(value)
    }
}

impl Record for Variable {
    open spec fn described(value: Json) -> Variable {
        variable_of(value)
    }

    fn read(value: &Json) -> (record: Variable) {
        Variable::from_json(value)
    }
}

/// The records that the values of `items` describe, in their order.
pub open spec fn records_of<T: Record>(items: Seq<Json>) -> Seq<T> {
    items.map_values(|value: Json| T::described(value))
}

/// Reads the records that the values of `items` describe, in their order.
pub fn read_records<T: Record>(items: &Vec<Json>) -> (out: Vec<T>)
    ensures
        out@ == records_of::<T>(items@),
{
    let mut out: Vec<T> = Vec::new();
    let mut i: usize = 0;
    while i < items.len()
        invariant
            i <= items.len(),
            out@ == records_of::<T>(items@.take(i as int)),
        decreases items.len() - i,
    {
        out.push(T::read(&items[i]));
        i += 1;
        assert(out@ =~= records_of::<T>(items@.take(i as int)));
    }
    assert(items@.take(i as int) =~= items@);
    out
}

/// The projects that the values of `items` describe, in their order.
pub open spec fn projects_of(items: Seq<Json>) -> Seq<Project> {
    items.map_values(|record: Json| project_of(record))
}

/// The pipelines that the values of `items` describe, in their order.
pub open spec fn pipelines_of(items: Seq<Json>) -> Seq<Pipeline> {
    items.map_values(|record: Json| pipeline_of(record))
}

/// The jobs that the values of `items` describe, in their order.
pub open spec fn jobs_of(items: Seq<Json>) -> Seq<Job> {
    items.map_values(|record: Json| job_of(record))
}

/// The variables that the values of `items` describe, in their order.
pub open spec fn variables_of(items: Seq<Json>) -> Seq<Variable> {
    items.map_values(|record: Json| variable_of(record))
}

/// The projects that the values of `items` describe, in their order.
pub fn read_projects(items: &Vec<Json>) -> (out: Vec<Project>)
    ensures
        out@ == projects_of(items@),
{
    let out = read_records::<Project>(items);
    assert(out@ =~= projects_of(items@));
    out
}

/// The pipelines that the values of `items` describe, in their order.
pub fn read_pipelines(items: &Vec<Json>) -> (out: Vec<Pipeline>)
    ensures
        out@ == pipelines_of(items@),
{
    let out = read_records::<Pipeline>(items);
    assert(out@ =~= pipelines_of(items@));
    out
}

/// The jobs that the values of `items` describe, in their order.
pub fn read_jobs(items: &Vec<Json>) -> (out: Vec<Job>)
    ensures
        out@ == jobs_of(items@),
{
    let out = read_records::<Job>(items);
    assert(out@ =~= jobs_of(items@));
    out
}

/// The variables that the values of `items` describe, in their order.
pub fn read_variables(items: &Vec<Json>) -> (out: Vec<Variable>)
    ensures
        out@ == variables_of(items@),
{
    let out = read_records::<Variable>(items);
    assert(out@ =~= variables_of(items@));
    out
}

} // verus!
