use gitlab_status::{ApiError, Gitlab, Request, Response};

#[test]
fn new_engine_knows_no_project() {
    let gitlab = Gitlab::new("https://host", "token");
    assert_eq!(gitlab.project_id("group/p"), None);
    assert_eq!(gitlab.token(), "token");
}

#[test]
fn project_number_is_asked_for_once() {
    let mut gitlab = Gitlab::new("https://host", "token");
    let ignore: Vec<String> = Vec::new();

    let first = gitlab.merge_request_count("group/p", &ignore);
    assert_eq!(first.request(), Some(Request::Project { name: String::from("group/p") }));
    let first = first.advance(&mut gitlab, Ok(Response::Project { id: 42 }));
    assert_eq!(first.request(), Some(Request::MergeRequests { project: 42 }));
    assert_eq!(gitlab.project_id("group/p"), Some(42));

    for _ in 0..3 {
        let count = gitlab.merge_request_count("group/p", &ignore);
        assert_eq!(count.request(), Some(Request::MergeRequests { project: 42 }));
        let status = gitlab.pipeline_status("group/p", "master");
        assert_eq!(
            status.request(),
            Some(Request::Pipelines { project: 42, ref_name: String::from("master") })
        );
        let scan = gitlab.user_merge_requests("group/p", &ignore);
        assert_eq!(scan.request(), Some(Request::MergeRequests { project: 42 }));
    }
}

#[test]
fn projects_are_cached_by_name() {
    let mut gitlab = Gitlab::new("https://host", "token");
    let ignore: Vec<String> = Vec::new();
    let one = gitlab.merge_request_count("one", &ignore);
    one.advance(&mut gitlab, Ok(Response::Project { id: 1 }));
    let two = gitlab.pipeline_status("two", "master");
    assert_eq!(two.request(), Some(Request::Project { name: String::from("two") }));
    two.advance(&mut gitlab, Ok(Response::Project { id: 2 }));
    assert_eq!(gitlab.project_id("one"), Some(1));
    assert_eq!(gitlab.project_id("two"), Some(2));
    assert_eq!(gitlab.project_id("three"), None);
}

#[test]
fn failed_resolution_is_not_cached() {
    let mut gitlab = Gitlab::new("https://host", "token");
    let ignore: Vec<String> = Vec::new();
    for error in [ApiError::Transport, ApiError::Decode, ApiError::Host] {
        let query = gitlab.user_merge_requests("group/p", &ignore);
        let query = query.advance(&mut gitlab, Err(error));
        assert_eq!(query.outcome(), Some(Err(error)));
        assert_eq!(gitlab.project_id("group/p"), None);
    }
    let query = gitlab.user_merge_requests("group/p", &ignore);
    assert_eq!(query.request(), Some(Request::Project { name: String::from("group/p") }));
}

#[test]
fn project_answer_of_another_shape_is_a_decode_failure() {
    let mut gitlab = Gitlab::new("https://host", "token");
    let query = gitlab.pipeline_status("group/p", "master");
    let query = query.advance(&mut gitlab, Ok(Response::MergeRequests(Vec::new())));
    assert_eq!(query.outcome(), Some(Err(ApiError::Decode)));
    assert_eq!(gitlab.project_id("group/p"), None);
}

#[test]
fn known_project_keeps_its_number() {
    let mut gitlab = Gitlab::new("https://host", "token");
    let ignore: Vec<String> = Vec::new();
    let early = gitlab.merge_request_count("group/p", &ignore);
    let late = gitlab.merge_request_count("group/p", &ignore);
    let early = early.advance(&mut gitlab, Ok(Response::Project { id: 42 }));
    let late = late.advance(&mut gitlab, Ok(Response::Project { id: 43 }));
    assert_eq!(gitlab.project_id("group/p"), Some(42));
    assert_eq!(early.request(), Some(Request::MergeRequests { project: 42 }));
    assert_eq!(late.request(), Some(Request::MergeRequests { project: 42 }));
}

#[test]
fn resolved_remembers_only_a_project_record() {
    let mut gitlab = Gitlab::new("https://host", "token");
    assert_eq!(gitlab.resolved("a", Err(ApiError::Transport)), Err(ApiError::Transport));
    assert_eq!(gitlab.resolved("a", Ok(Response::Pipelines(Vec::new()))), Err(ApiError::Decode));
    assert_eq!(gitlab.project_id("a"), None);
    assert_eq!(gitlab.resolved("a", Ok(Response::Project { id: 7 })), Ok(7));
    assert_eq!(gitlab.project_id("a"), Some(7));
    assert_eq!(gitlab.resolved("a", Ok(Response::Project { id: 8 })), Ok(7));
    assert_eq!(gitlab.resolved("b", Ok(Response::Project { id: 8 })), Ok(8));
    assert_eq!(gitlab.project_id("a"), Some(7));
    assert_eq!(gitlab.project_id("b"), Some(8));
}
