use gitlab_status::model::{Pipeline, PipelineDetail};
use gitlab_status::status::pipeline_is_scheduled;
use gitlab_status::{ApiError, Gitlab, PipelineStatus, Reply, Request, Response};

fn pipeline(id: u32, status: PipelineStatus) -> Pipeline {
    Pipeline { id, status, ref_name: String::from("master"), sha: format!("sha-{}", id) }
}

fn detail(id: u32, before_sha: &str) -> Reply {
    Ok(Response::PipelineDetail(PipelineDetail { id, before_sha: String::from(before_sha) }))
}

fn run_status(
    gitlab: &mut Gitlab,
    answer: &dyn Fn(&Request) -> Reply,
) -> (Vec<Request>, Result<PipelineStatus, ApiError>) {
    let mut query = gitlab.pipeline_status("group/p", "master");
    let mut asked = Vec::new();
    while let Some(request) = query.request() {
        assert!(query.outcome().is_none());
        let reply = answer(&request);
        asked.push(request);
        query = query.advance(gitlab, reply);
    }
    (asked, query.outcome().unwrap())
}

#[test]
fn scheduled_pipeline_is_passed_over() {
    let mut gitlab = Gitlab::new("https://host", "token");
    let (asked, status) = run_status(&mut gitlab, &|request| match request {
        Request::Project { .. } => Ok(Response::Project { id: 42 }),
        Request::Pipelines { .. } => Ok(Response::Pipelines(vec![
            pipeline(1, PipelineStatus::Failed),
            pipeline(2, PipelineStatus::Success),
        ])),
        Request::PipelineDetail { pipeline: 1, .. } => detail(1, "0000"),
        Request::PipelineDetail { pipeline: 2, .. } => detail(2, "abc123"),
        _ => Err(ApiError::Host),
    });
    assert_eq!(status, Ok(PipelineStatus::Success));
    assert_eq!(
        asked,
        vec![
            Request::Project { name: String::from("group/p") },
            Request::Pipelines { project: 42, ref_name: String::from("master") },
            Request::PipelineDetail { project: 42, pipeline: 1 },
            Request::PipelineDetail { project: 42, pipeline: 2 },
        ]
    );
}

#[test]
fn first_pipeline_that_is_not_scheduled_decides() {
    let mut gitlab = Gitlab::new("https://host", "token");
    let (asked, status) = run_status(&mut gitlab, &|request| match request {
        Request::Project { .. } => Ok(Response::Project { id: 42 }),
        Request::Pipelines { .. } => Ok(Response::Pipelines(vec![
            pipeline(10, PipelineStatus::Failed),
            pipeline(11, PipelineStatus::Canceled),
            pipeline(12, PipelineStatus::Running),
            pipeline(13, PipelineStatus::Success),
        ])),
        Request::PipelineDetail { pipeline: 10, .. } => detail(10, "0000000000"),
        Request::PipelineDetail { pipeline: 11, .. } => detail(11, "0"),
        Request::PipelineDetail { pipeline: 12, .. } => detail(12, "00f0"),
        Request::PipelineDetail { pipeline: 13, .. } => detail(13, "beef"),
        _ => Err(ApiError::Host),
    });
    assert_eq!(status, Ok(PipelineStatus::Running));
    assert_eq!(asked.len(), 5);
    assert_eq!(asked[4], Request::PipelineDetail { project: 42, pipeline: 12 });
}

#[test]
fn first_pipeline_decides_without_further_lookups() {
    let mut gitlab = Gitlab::new("https://host", "token");
    let (asked, status) = run_status(&mut gitlab, &|request| match request {
        Request::Project { .. } => Ok(Response::Project { id: 42 }),
        Request::Pipelines { .. } => Ok(Response::Pipelines(vec![
            pipeline(1, PipelineStatus::Pending),
            pipeline(2, PipelineStatus::Success),
        ])),
        Request::PipelineDetail { pipeline, .. } => detail(*pipeline, "abc"),
        _ => Err(ApiError::Host),
    });
    assert_eq!(status, Ok(PipelineStatus::Pending));
    assert_eq!(asked.len(), 3);
}

#[test]
fn all_scheduled_is_skipped() {
    let mut gitlab = Gitlab::new("https://host", "token");
    let (asked, status) = run_status(&mut gitlab, &|request| match request {
        Request::Project { .. } => Ok(Response::Project { id: 42 }),
        Request::Pipelines { .. } => Ok(Response::Pipelines(vec![
            pipeline(1, PipelineStatus::Failed),
            pipeline(2, PipelineStatus::Success),
            pipeline(3, PipelineStatus::Running),
        ])),
        Request::PipelineDetail { pipeline, .. } => detail(*pipeline, "000000"),
        _ => Err(ApiError::Host),
    });
    assert_eq!(status, Ok(PipelineStatus::Skipped));
    assert_eq!(asked.len(), 5);
}

#[test]
fn empty_pipeline_list_is_skipped() {
    let mut gitlab = Gitlab::new("https://host", "token");
    let (asked, status) = run_status(&mut gitlab, &|request| match request {
        Request::Project { .. } => Ok(Response::Project { id: 42 }),
        Request::Pipelines { .. } => Ok(Response::Pipelines(Vec::new())),
        _ => Err(ApiError::Host),
    });
    assert_eq!(status, Ok(PipelineStatus::Skipped));
    assert_eq!(asked.len(), 2);
}

#[test]
fn failed_detail_lookup_passes_the_pipeline_over() {
    let mut gitlab = Gitlab::new("https://host", "token");
    let (asked, status) = run_status(&mut gitlab, &|request| match request {
        Request::Project { .. } => Ok(Response::Project { id: 42 }),
        Request::Pipelines { .. } => Ok(Response::Pipelines(vec![
            pipeline(1, PipelineStatus::Failed),
            pipeline(2, PipelineStatus::Manual),
        ])),
        Request::PipelineDetail { pipeline: 1, .. } => Err(ApiError::Decode),
        Request::PipelineDetail { pipeline: 2, .. } => detail(2, "abc"),
        _ => Err(ApiError::Host),
    });
    assert_eq!(status, Ok(PipelineStatus::Manual));
    assert_eq!(asked.len(), 4);
}

#[test]
fn all_detail_lookups_failed_is_skipped() {
    let mut gitlab = Gitlab::new("https://host", "token");
    let (_, status) = run_status(&mut gitlab, &|request| match request {
        Request::Project { .. } => Ok(Response::Project { id: 42 }),
        Request::Pipelines { .. } => Ok(Response::Pipelines(vec![
            pipeline(1, PipelineStatus::Failed),
            pipeline(2, PipelineStatus::Failed),
        ])),
        _ => Err(ApiError::Transport),
    });
    assert_eq!(status, Ok(PipelineStatus::Skipped));
}

#[test]
fn failed_pipeline_list_fetch_ends_the_query() {
    let mut gitlab = Gitlab::new("https://host", "token");
    let (asked, status) = run_status(&mut gitlab, &|request| match request {
        Request::Project { .. } => Ok(Response::Project { id: 42 }),
        _ => Err(ApiError::Transport),
    });
    assert_eq!(status, Err(ApiError::Transport));
    assert_eq!(asked.len(), 2);
}

#[test]
fn pipeline_list_of_another_shape_is_a_decode_failure() {
    let mut gitlab = Gitlab::new("https://host", "token");
    let (_, status) = run_status(&mut gitlab, &|request| match request {
        Request::Project { .. } => Ok(Response::Project { id: 42 }),
        _ => Ok(Response::MergeRequests(Vec::new())),
    });
    assert_eq!(status, Err(ApiError::Decode));
}

#[test]
fn scheduled_means_a_parent_of_zeros_only() {
    let of = |before_sha: &str| PipelineDetail { id: 1, before_sha: String::from(before_sha) };
    assert!(pipeline_is_scheduled(&of("0000000000000000000000000000000000000000")));
    assert!(pipeline_is_scheduled(&of("0000")));
    assert!(pipeline_is_scheduled(&of("")));
    assert!(!pipeline_is_scheduled(&of("abc123")));
    assert!(!pipeline_is_scheduled(&of("0000a0000")));
    assert!(!pipeline_is_scheduled(&of("1000")));
    assert!(!pipeline_is_scheduled(&of("0001")));
}
