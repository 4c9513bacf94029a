use gitlabutil::accessor::{settle, Reply};
use gitlabutil::manager;
use gitlabutil::merge_request::{split_list, Args, Call, Module, Phase};
use gitlabutil::models::{ApiError, ErrorKind, MergeRequest, Method, Project};
use gitlabutil::registry::Registry;

fn project(id: i64) -> Project {
    Project {
        id,
        description: String::new(),
        name: "repo".to_string(),
        name_with_namespace: "group / repo".to_string(),
        path: "repo".to_string(),
        path_with_namespace: "group/repo".to_string(),
        created_at: "2022-01-01T00:00:00Z".to_string(),
        default_branch: "main".to_string(),
        ssh_url_to_repo: "git@gitlab.com:group/repo.git".to_string(),
        http_url_to_repo: "https://gitlab.com/group/repo.git".to_string(),
        web_url: "https://gitlab.com/group/repo".to_string(),
        readme_url: String::new(),
        forks_count: 0,
        star_count: 0,
        last_activity_at: "2022-01-01T00:00:00Z".to_string(),
        container_registry_image_prefix: String::new(),
        packages_enabled: true,
        empty_repo: false,
        archived: false,
        visibility: "private".to_string(),
        resolve_outdated_diff_discussions: false,
        issues_enabled: true,
        merge_requests_enabled: true,
    }
}

fn created(id: i64, target: &str) -> MergeRequest {
    MergeRequest {
        id,
        title: "t".to_string(),
        target_branch: target.to_string(),
        source_branch: "feature".to_string(),
        web_url: format!("https://gitlab.com/group/repo/-/merge_requests/{}", id),
    }
}

fn ok<T>(value: T) -> Reply<T> {
    Reply::Answered { status: 200, body: "{}".to_string(), decoded: Ok(value) }
}

fn args(targets: &str) -> Args {
    Args::parse("group/repo", "feature", targets, "add login", Some("desc"), Some("ES-1,ES-2"))
}

fn url_of(call: &Call) -> String {
    match call {
        Call::Get { url } => format!("GET {}", url),
        Call::Post { url, .. } => format!("POST {}", url),
    }
}

#[test]
fn successful_run_makes_two_calls_per_branch_in_order() {
    let mut module = Module::new(args("uat,prod,dev"));
    let mut calls = Vec::new();
    let mut next_id = 100;
    while let Some(call) = module.next_call() {
        calls.push(url_of(&call));
        match call {
            Call::Get { .. } => {
                module.on_project(ok(project(7))).unwrap();
            }
            Call::Post { request, .. } => {
                assert_eq!(request.id, 7);
                let mr = module.on_merge_request(ok(created(next_id, &request.target_branch))).unwrap();
                assert_eq!(mr.id, next_id);
                next_id += 1;
            }
        }
    }
    let get = "GET https://gitlab.com/api/v4/projects/group%2Frepo".to_string();
    let post = "POST https://gitlab.com/api/v4/projects/7/merge_requests".to_string();
    assert_eq!(calls, vec![get.clone(), post.clone(), get.clone(), post.clone(), get, post]);
    assert_eq!(module.phase, Phase::Finished);
    let ids: Vec<i64> = module.created.iter().map(|m| m.id).collect();
    assert_eq!(ids, vec![100, 101, 102]);
}

#[test]
fn submission_carries_formatted_title_per_branch() {
    let mut module = Module::new(args("uat,prod"));
    module.next_call().unwrap();
    module.on_project(ok(project(3))).unwrap();
    match module.next_call().unwrap() {
        Call::Post { url, request } => {
            assert_eq!(url, "https://gitlab.com/api/v4/projects/3/merge_requests");
            assert_eq!(request.id, 3);
            assert_eq!(request.source_branch, "feature");
            assert_eq!(request.target_branch, "uat");
            assert_eq!(request.title, "[ES-1][ES-2][uat] add login");
            assert_eq!(request.description, "desc");
        }
        Call::Get { .. } => panic!("expected the submission"),
    }
    module.on_merge_request(ok(created(1, "uat"))).unwrap();
    module.next_call().unwrap();
    module.on_project(ok(project(3))).unwrap();
    match module.next_call().unwrap() {
        Call::Post { request, .. } => {
            assert_eq!(request.target_branch, "prod");
            assert_eq!(request.title, "[ES-1][ES-2][prod] add login");
        }
        Call::Get { .. } => panic!("expected the submission"),
    }
    assert_eq!(module.args.jira_ticket_ids, vec!["ES-1".to_string(), "ES-2".to_string()]);
}

#[test]
fn transport_failure_stops_remaining_branches() {
    let mut module = Module::new(args("uat,prod,dev"));
    module.next_call().unwrap();
    module.on_project(ok(project(7))).unwrap();
    module.next_call().unwrap();
    module.on_merge_request(ok(created(1, "uat"))).unwrap();
    module.next_call().unwrap();
    let err = module
        .on_project(Reply::Unreachable { message: "connection refused".to_string() })
        .unwrap_err();
    assert_eq!(err.kind, ErrorKind::Transport);
    assert_eq!(err.status_code, 0);
    assert_eq!(err.method, Method::Get);
    assert_eq!(err.url, "https://gitlab.com/api/v4/projects/group%2Frepo");
    assert_eq!(err.message, "connection refused");
    assert!(module.next_call().is_none());
    assert_eq!(module.phase, Phase::Aborted);
    assert_eq!(module.created.len(), 1);
}

#[test]
fn status_failure_on_submission_stops_run() {
    let mut module = Module::new(args("uat,prod"));
    module.next_call().unwrap();
    module.on_project(ok(project(9))).unwrap();
    module.next_call().unwrap();
    let reply: Reply<MergeRequest> = Reply::Answered {
        status: 409,
        body: "{\"message\":\"exists\"}".to_string(),
        decoded: Err("missing field `id`".to_string()),
    };
    let err = module.on_merge_request(reply).unwrap_err();
    assert_eq!(err.kind, ErrorKind::Status);
    assert_eq!(err.status_code, 409);
    assert_eq!(err.method, Method::Post);
    assert_eq!(err.url, "https://gitlab.com/api/v4/projects/9/merge_requests");
    assert_eq!(err.message, "{\"message\":\"exists\"}");
    assert!(module.next_call().is_none());
    assert!(module.created.is_empty());
}

#[test]
fn undecodable_success_body_is_decode_error() {
    let reply: Reply<Project> = Reply::Answered {
        status: 200,
        body: "<html>".to_string(),
        decoded: Err("expected value".to_string()),
    };
    let err = settle("u".to_string(), Method::Get, reply).unwrap_err();
    assert_eq!(err.kind, ErrorKind::Decode);
    assert_eq!(err.status_code, 200);
    assert_eq!(err.message, "expected value");
}

#[test]
fn created_status_counts_as_success() {
    let reply = Reply::Answered { status: 201, body: String::new(), decoded: Ok(5i64) };
    assert_eq!(settle("u".to_string(), Method::Post, reply).unwrap(), 5);
    let reply = Reply::Answered { status: 300, body: "moved".to_string(), decoded: Ok(5i64) };
    assert_eq!(settle("u".to_string(), Method::Post, reply).unwrap_err().kind, ErrorKind::Status);
}

#[test]
fn result_keeps_response_id_and_url() {
    let mut module = Module::new(args("uat"));
    module.next_call().unwrap();
    module.on_project(ok(project(4))).unwrap();
    module.next_call().unwrap();
    let mr = module.on_merge_request(ok(created(812, "uat"))).unwrap();
    assert_eq!(mr.id, 812);
    assert_eq!(mr.link, "https://gitlab.com/group/repo/-/merge_requests/812");
    assert_eq!(module.phase, Phase::Finished);
    let direct = manager::MergeRequest::from_response(created(5, "x"));
    assert_eq!(direct.id, 5);
    assert_eq!(direct.link, "https://gitlab.com/group/repo/-/merge_requests/5");
}

#[test]
fn no_target_branches_makes_no_call() {
    let module = Module::new(Args {
        repository: "g/r".to_string(),
        source_branch: "f".to_string(),
        target_branches: Vec::new(),
        title: "t".to_string(),
        description: String::new(),
        jira_ticket_ids: Vec::new(),
    });
    assert!(module.next_call().is_none());
    assert_eq!(module.phase, Phase::Finished);
}

#[test]
fn lists_split_on_commas() {
    assert_eq!(split_list("uat,prod"), vec!["uat".to_string(), "prod".to_string()]);
    assert_eq!(split_list("uat"), vec!["uat".to_string()]);
    assert_eq!(split_list(""), vec![String::new()]);
    assert_eq!(split_list("a,,b,"), vec!["a".to_string(), String::new(), "b".to_string(), String::new()]);
}

#[test]
fn parse_fills_defaults() {
    let a = Args::parse("g/r", "f", "uat,prod", "t", None, None);
    assert_eq!(a.repository, "g/r");
    assert_eq!(a.source_branch, "f");
    assert_eq!(a.target_branches, vec!["uat".to_string(), "prod".to_string()]);
    assert_eq!(a.title, "t");
    assert_eq!(a.description, "");
    assert!(a.jira_ticket_ids.is_empty());
}

#[test]
fn error_description_names_every_field() {
    let e = ApiError {
        kind: ErrorKind::Status,
        url: "https://gitlab.com/api/v4/projects/1/merge_requests".to_string(),
        method: Method::Post,
        status_code: 404,
        message: "not found".to_string(),
    };
    assert_eq!(
        e.describe(),
        "ApiError{ url: https://gitlab.com/api/v4/projects/1/merge_requests, method: post code: 404, message: not found }"
    );
}

#[test]
fn registry_starts_a_fresh_run() {
    let registry = Registry::new(args("uat"));
    let module = &registry.merge_request_module;
    assert_eq!(module.next, 0);
    assert_eq!(module.phase, Phase::Resolving);
    match module.next_call() {
        Some(Call::Get { url }) => assert_eq!(url, "https://gitlab.com/api/v4/projects/group%2Frepo"),
        _ => panic!("expected the lookup"),
    }
}
