use labtool::http::{delete_variable_request, jobs_request, pipelines_request, project_request,
    projects_request, request, set_variable_request, trace_request, update_variable_request,
    variables_request, Body, HttpRequest, HttpResponse, Method, Payload};
use labtool::json::Json;

fn expected(method: Method, url: &str, payload: Payload) -> HttpRequest {
    HttpRequest { method, url: url.to_string(), authorization: "Bearer tok".to_string(), payload }
}

#[test]
fn requests_go_to_their_addresses() {
    assert_eq!(
        projects_request("tok"),
        expected(Method::Get, "https://gitlab.com/api/v4/groups/66653699/projects", Payload::Json)
    );
    assert_eq!(
        project_request("tok", 42),
        expected(Method::Get, "https://gitlab.com/api/v4/projects/42", Payload::Json)
    );
    assert_eq!(
        variables_request("tok", 42),
        expected(Method::Get, "https://gitlab.com/api/v4/projects/42/variables", Payload::Json)
    );
    assert_eq!(
        set_variable_request("tok", 42, "K", "v 1"),
        expected(Method::Post, "https://gitlab.com/api/v4/projects/42/variables/?key=K&value=v 1", Payload::Text)
    );
    assert_eq!(
        update_variable_request("tok", 42, "K", "v"),
        expected(Method::Put, "https://gitlab.com/api/v4/projects/42/variables/K?value=v", Payload::Text)
    );
    assert_eq!(
        delete_variable_request("tok", 42, "K"),
        expected(Method::Delete, "https://gitlab.com/api/v4/projects/42/variables/K", Payload::Text)
    );
    assert_eq!(
        pipelines_request("tok", 42, "main"),
        expected(Method::Get, "https://gitlab.com/api/v4/projects/42/pipelines/?ref=main", Payload::Json)
    );
    assert_eq!(
        jobs_request("tok", 42, 1001),
        expected(Method::Get, "https://gitlab.com/api/v4/projects/42/pipelines/1001/jobs", Payload::Json)
    );
    assert_eq!(
        trace_request("tok", 42, 2924792047),
        expected(Method::Get, "https://gitlab.com/api/v4/projects/42/jobs/2924792047/trace", Payload::Text)
    );
    assert_eq!(
        trace_request("tok", u64::MAX, -1),
        expected(Method::Get, "https://gitlab.com/api/v4/projects/18446744073709551615/jobs/-1/trace", Payload::Text)
    );
}

#[test]
fn the_token_is_sent_as_a_bearer() {
    let made = request(Method::Get, "u".to_string(), "glpat-secret", Payload::Text);
    assert_eq!(made.authorization, "Bearer glpat-secret");
    assert_eq!(made.url, "u");
    assert_eq!(request(Method::Put, String::new(), "", Payload::Json).authorization, "Bearer ");
}

#[test]
fn a_body_is_read_as_a_list() {
    let read = |text: &str| Body::Bytes(text.as_bytes().to_vec()).read_items();
    assert_eq!(read("[]"), Some(Vec::new()));
    assert_eq!(read(" [null, true] "), Some(vec![Json::Null, Json::Bool(true)]));
    assert_eq!(read("{}"), None);
    assert_eq!(read("[1] x"), None);
    assert_eq!(read(""), None);
    assert_eq!(Body::Text("[]".to_string()).read_items(), None);
}

#[test]
fn success_is_a_status_from_200_to_299() {
    for (status, yes) in [(199, false), (200, true), (204, true), (299, true), (300, false), (404, false), (500, false), (0, false), (u16::MAX, false)] {
        let response = HttpResponse { status, status_text: String::new(), body: Body::Text(String::new()) };
        assert_eq!(response.succeeded(), yes);
    }
}
