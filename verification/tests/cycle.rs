use gitlab_status::model::{
    Branch, Commit, MergeRequest, MergeRequestApproval, MergeRequestAuthor, Pipeline,
    PipelineDetail,
};
use gitlab_status::{ApiError, Config, Cycle, Gitlab, PipelineStatus, Project, Reply, Request, Response};

fn watched_project(title: &str, name: &str) -> Project {
    Project {
        title: String::from(title),
        name: String::from(name),
        ignore_users: vec![String::from("bot")],
        branch_users: vec![String::from("alice")],
    }
}

fn two_projects() -> Config {
    Config {
        title: String::from("ok"),
        gitlab_url: String::from("https://host"),
        token: String::from("token"),
        project: vec![watched_project("A", "group/a"), watched_project("B", "group/b")],
    }
}

fn run_cycle(
    gitlab: &mut Gitlab,
    config: &Config,
    answer: &dyn Fn(&Request) -> Reply,
) -> (Vec<Request>, String) {
    let mut cycle = Cycle::start(gitlab, config);
    let mut asked = Vec::new();
    while let Some(request) = cycle.request() {
        assert!(cycle.title().is_none());
        let reply = answer(&request);
        asked.push(request);
        cycle = cycle.advance(gitlab, reply);
    }
    (asked, cycle.title().unwrap())
}

fn host(request: &Request) -> Reply {
    match request {
        Request::Project { name } if name == "group/a" => Ok(Response::Project { id: 1 }),
        Request::Project { .. } => Ok(Response::Project { id: 2 }),
        Request::MergeRequests { project: 1 } => Ok(Response::MergeRequests(vec![
            MergeRequest {
                id: 10,
                iid: 7,
                author: MergeRequestAuthor { id: 1, username: String::from("bob") },
                source_branch: String::from("feat"),
                sha: String::from("abc"),
            },
            MergeRequest {
                id: 11,
                iid: 8,
                author: MergeRequestAuthor { id: 2, username: String::from("bot") },
                source_branch: String::from("deps"),
                sha: String::from("def"),
            },
        ])),
        Request::MergeRequests { .. } => Ok(Response::MergeRequests(Vec::new())),
        Request::Approvals { iid, .. } => Ok(Response::Approvals(MergeRequestApproval {
            id: 10,
            iid: *iid,
            approvals_left: 1,
            user_can_approve: true,
            user_has_approved: false,
        })),
        Request::Pipelines { project, .. } => Ok(Response::Pipelines(vec![Pipeline {
            id: 100 + project,
            status: if *project == 1 { PipelineStatus::Running } else { PipelineStatus::Success },
            ref_name: String::from("master"),
            sha: String::from("abc"),
        }])),
        Request::PipelineDetail { pipeline, .. } => {
            Ok(Response::PipelineDetail(PipelineDetail { id: *pipeline, before_sha: String::from("a0") }))
        }
        Request::Branch { name, .. } => Ok(Response::Branch(Branch {
            name: name.clone(),
            merged: false,
            commit: Commit {
                id: String::from(if name == "feat" { "abc" } else { "def" }),
                message: String::from("work"),
                author_name: String::from(if name == "feat" { "alice" } else { "bot" }),
                author_email: String::from("x@example.com"),
                committer_name: String::from("x"),
                committer_email: String::from("x@example.com"),
            },
        })),
        Request::FailedPipelines { sha, .. } => Ok(Response::Pipelines(vec![Pipeline {
            id: 5,
            status: PipelineStatus::Failed,
            ref_name: String::from("feat"),
            sha: sha.clone(),
        }])),
    }
}

#[test]
fn cycle_runs_the_three_queries_for_each_project() {
    let mut gitlab = Gitlab::new("https://host", "token");
    let config = two_projects();
    let (asked, title) = run_cycle(&mut gitlab, &config, &host);
    assert_eq!(title, "A🏃1feat💩");
    assert_eq!(
        asked,
        vec![
            Request::Project { name: String::from("group/a") },
            Request::MergeRequests { project: 1 },
            Request::Approvals { project: 1, iid: 7 },
            Request::Pipelines { project: 1, ref_name: String::from("master") },
            Request::PipelineDetail { project: 1, pipeline: 101 },
            Request::MergeRequests { project: 1 },
            Request::Branch { project: 1, name: String::from("feat") },
            Request::FailedPipelines { project: 1, sha: String::from("abc") },
            Request::Branch { project: 1, name: String::from("deps") },
            Request::Project { name: String::from("group/b") },
            Request::MergeRequests { project: 2 },
            Request::Pipelines { project: 2, ref_name: String::from("master") },
            Request::PipelineDetail { project: 2, pipeline: 102 },
            Request::MergeRequests { project: 2 },
        ]
    );
}

#[test]
fn second_cycle_asks_for_no_project_number() {
    let mut gitlab = Gitlab::new("https://host", "token");
    let config = two_projects();
    run_cycle(&mut gitlab, &config, &host);
    let (asked, title) = run_cycle(&mut gitlab, &config, &host);
    assert_eq!(title, "A🏃1feat💩");
    assert_eq!(asked.len(), 12);
    assert!(asked.iter().all(|request| !matches!(request, Request::Project { .. })));
}

#[test]
fn cycle_without_projects_shows_the_configured_title() {
    let mut gitlab = Gitlab::new("https://host", "token");
    let config = Config { project: Vec::new(), ..two_projects() };
    let (asked, title) = run_cycle(&mut gitlab, &config, &host);
    assert_eq!(title, "ok");
    assert!(asked.is_empty());
}

#[test]
fn unreachable_host_shows_marks_for_every_project() {
    let mut gitlab = Gitlab::new("https://host", "token");
    let config = two_projects();
    let (asked, title) = run_cycle(&mut gitlab, &config, &|_| Err(ApiError::Transport));
    assert_eq!(title, "A?⨳⨳B?⨳⨳");
    assert_eq!(asked.len(), 6);
    assert!(asked.iter().all(|request| matches!(request, Request::Project { .. })));
}

#[test]
fn failed_stage_marks_only_its_part() {
    let mut gitlab = Gitlab::new("https://host", "token");
    let config = Config { project: vec![watched_project("A", "group/a")], ..two_projects() };
    let (_, title) = run_cycle(&mut gitlab, &config, &|request| match request {
        Request::Pipelines { .. } => Err(ApiError::Host),
        other => host(other),
    });
    assert_eq!(title, "A?1feat💩");
}
