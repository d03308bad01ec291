//! Requests to the platform and its responses, as plain values: what is to
//! be sent, and what came back.

use vstd::prelude::*;
use vstd::string::StringExecFns;
use crate::json::{decode_items, held_items, items_of_bytes, Json};
use crate::text::{decimal, decimal_text, signed_decimal, signed_decimal_text};

verus! {

/// The method of a request.
#[derive(Debug, Clone, Copy, PartialEq, Eq, Structural)]
pub enum Method {
    Get,
    Post,
    Put,
    Delete,
}

/// How the body of the response is to be read.
#[derive(Debug, Clone, Copy, PartialEq, Eq, Structural)]
pub enum Payload {
    /// As the bytes that came: they are to write JSON.
    Json,
    /// As text, decoded as the response says.
    Text,
}

/// A request to the platform.
#[derive(Debug, Clone, PartialEq, Eq)]
pub struct HttpRequest {
    pub method: Method,
    pub url: String,
    /// The value of the header `Authorization`.
    pub authorization: String,
    pub payload: Payload,
}

/// What a request holds.
pub struct RequestView {
    pub method: Method,
    pub url: Seq<char>,
    pub authorization: Seq<char>,
    pub payload: Payload,
}

impl View for HttpRequest {
    type V = RequestView;

    open spec fn view(&self) -> RequestView {
        RequestView {
            method: self.method,
            url: self.url@,
            authorization: self.authorization@,
            payload: self.payload,
        }
    }
}

/// The body of a response, read as the request asked.
#[derive(Debug, Clone, PartialEq, Eq)]
pub enum Body {
    Bytes(Vec<u8>),
    Text(String),
}

/// A response of the platform.
#[derive(Debug, Clone, PartialEq, Eq)]
pub struct HttpResponse {
    pub status: u16,
    /// The status as it is shown: its code and what the code stands for.
    pub status_text: String,
    pub body: Body,
}

/// What came of a request.
#[derive(Debug, Clone, PartialEq, Eq)]
pub enum Reply {
    Response(HttpResponse),
    /// No response came; the text says why.
    Failed(String),
}

/// Whether `status` is a success: one of the codes from 200 to 299.
pub open spec fn is_success(status: u16) -> bool {
    200 <= status < 300
}

impl Body {
    /// The values of the JSON list that the body writes, where it writes one.
    pub open spec fn items(self) -> Option<Seq<Json>> {
        match self {
            Body::Bytes(bytes) => items_of_bytes(bytes@),
            Body::Text(_) => None,
        }
    }

    /// Reads the body as a JSON list.
    pub fn read_items(&self) -> (items: Option<Vec<Json>>)
        ensures
            held_items(items) == self.items(),
    {
        match self {
            Body::Bytes(bytes) => decode_items(bytes),
            Body::Text(_) => None,
        }
    }
}

impl HttpResponse {
    /// Whether the status of the response is a success.
    pub fn succeeded(&self) -> (yes: bool)
        ensures
            yes == is_success(self.status),
    {
        200 <= self.status && self.status < 300
    }
}

/// The value of the header `Authorization` for `token`.
pub open spec fn bearer(token: Seq<char>) -> Seq<char> {
    "Bearer "@ + token
}

/// Where the projects of the group are listed.
pub open spec fn projects_url() -> Seq<char> {
    "https://gitlab.com/api/v4/groups/66653699/projects"@
}

/// Where the project `id` is.
pub open spec fn project_url(id: u64) -> Seq<char> {
    "https://gitlab.com/api/v4/projects/"@ + decimal(id as nat)
}

/// Where the variables of the project `id` are listed.
pub open spec fn variables_url(id: u64) -> Seq<char> {
    project_url(id) + "/variables"@
}

/// Where the variable `key` of the project `id` is set to `value`.
pub open spec fn set_variable_url(id: u64, key: Seq<char>, value: Seq<char>) -> Seq<char> {
    project_url(id) + "/variables/?key="@ + key + "&value="@ + value
}

/// Where the variable `key` of the project `id` is changed to `value`.
pub open spec fn update_variable_url(id: u64, key: Seq<char>, value: Seq<char>) -> Seq<char> {
    project_url(id) + "/variables/"@ + key + "?value="@ + value
}

/// Where the variable `key` of the project `id` is.
pub open spec fn variable_url(id: u64, key: Seq<char>) -> Seq<char> {
    project_url(id) + "/variables/"@ + key
}

/// Where the pipelines of the project `id` on `branch` are listed.
pub open spec fn pipelines_url(id: u64, branch: Seq<char>) -> Seq<char> {
    project_url(id) + "/pipelines/?ref="@ + branch
}

/// Where the jobs of the pipeline `pipeline` of the project `id` are listed.
pub open spec fn jobs_url(id: u64, pipeline: i64) -> Seq<char> {
    project_url(id) + "/pipelines/"@ + signed_decimal(pipeline as int) + "/jobs"@
}

/// Where the log of the job `job` of the project `id` is.
pub open spec fn trace_url(id: u64, job: i64) -> Seq<char> {
    project_url(id) + "/jobs/"@ + signed_decimal(job as int) + "/trace"@
}

/// The request with `method` to `url`, in the name of `token`.
pub open spec fn request_to(method: Method, url: Seq<char>, token: Seq<char>, payload: Payload)
    -> RequestView {
    RequestView { method, url, authorization: bearer(token), payload }
}

/// The request with `method` to `url`, in the name of `token`.
pub fn request(method: Method, url: String, token: &str, payload: Payload) -> (out: HttpRequest)
    ensures
        out@ == request_to(method, url@, token@, payload),
{
    let mut authorization = String::from_str("Bearer ");
    authorization.append(token);
    HttpRequest { method, url, authorization, payload }
}

fn project_address(id: u64) -> (url: String)
    ensures
        url@ == project_url(id),
{
    let mut url = String::from_str("https://gitlab.com/api/v4/projects/");
    url.append(decimal_text(id).as_str());
    url
}

/// The request that lists the projects of the group.
pub fn projects_request(token: &str) -> (out: HttpRequest)
    ensures
        out@ == request_to(Method::Get, projects_url(), token@, Payload::Json),
{
    request(
        Method::Get,
        String::from_str("https://gitlab.com/api/v4/groups/66653699/projects"),
        token,
        Payload::Json,
    )
}

/// The request that fetches the project `id`.
pub fn project_request(token: &str, id: u64) -> (out: HttpRequest)
    ensures
        out@ == request_to(Method::Get, project_url(id), token@, Payload::Json),
{
    request(Method::Get, project_address(id), token, Payload::Json)
}

/// The request that lists the variables of the project `id`.
pub fn variables_request(token: &str, id: u64) -> (out: HttpRequest)
    ensures
        out@ == request_to(Method::Get, variables_url(id), token@, Payload::Json),
{
    let mut url = project_address(id);
    url.append("/variables");
    request(Method::Get, url, token, Payload::Json)
}

/// The request that sets the variable `key` of the project `id` to `value`.
pub fn set_variable_request(token: &str, id: u64, key: &str, value: &str) -> (out: HttpRequest)
    ensures
        out@ == request_to(Method::Post, set_variable_url(id, key@, value@), token@, Payload::Text),
{
    let mut url = project_address(id);
    url.append("/variables/?key=");
    url.append(key);
    url.append("&value=");
    url.append(value);
    request(Method::Post, url, token, Payload::Text)
}

/// The request that changes the variable `key` of the project `id` to `value`.
pub fn update_variable_request(token: &str, id: u64, key: &str, value: &str) -> (out:
    HttpRequest)
    ensures
        out@ == request_to(
            Method::Put,
            update_variable_url(id, key@, value@),
            token@,
            Payload::Text,
        ),
{
    let mut url = project_address(id);
    url.append("/variables/");
    url.append(key);
    url.append("?value=");
    url.append(value);
    request(Method::Put, url, token, Payload::Text)
}

/// The request that deletes the variable `key` of the project `id`.
pub fn delete_variable_request(token: &str, id: u64, key: &str) -> (out: HttpRequest)
    ensures
        out@ == request_to(Method::Delete, variable_url(id, key@), token@, Payload::Text),
{
    let mut url = project_address(id);
    url.append("/variables/");
    url.append(key);
    request(Method::Delete, url, token, Payload::Text)
}

/// The request that lists the pipelines of the project `id` on `branch`.
pub fn pipelines_request(token: &str, id: u64, branch: &str) -> (out: HttpRequest)
    ensures
        out@ == request_to(Method::Get, pipelines_url(id, branch@), token@, Payload::Json),
{
    let mut url = project_address(id);
    url.append("/pipelines/?ref=");
    url.append(branch);
    request(Method::Get, url, token, Payload::Json)
}

/// The request that lists the jobs of the pipeline `pipeline` of the project `id`.
pub fn jobs_request(token: &str, id: u64, pipeline: i64) -> (out: HttpRequest)
    ensures
        out@ == request_to(Method::Get, jobs_url(id, pipeline), token@, Payload::Json),
{
    let mut url = project_address(id);
    url.append("/pipelines/");
    url.append(signed_decimal_text(pipeline).as_str());
    url.append("/jobs");
    request(Method::Get, url, token, Payload::Json)
}

/// The request that fetches the log of the job `job` of the project `id`.
pub fn trace_request(token: &str, id: u64, job: i64) -> (out: HttpRequest)
    ensures
        out@ == request_to(Method::Get, trace_url(id, job), token@, Payload::Text),
{
    let mut url = project_address(id);
    url.append("/jobs/");
    url.append(signed_decimal_text(job).as_str());
    url.append("/trace");
    request(Method::Get, url, token, Payload::Text)
}

} // verus!
