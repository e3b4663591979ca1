use gitlab_status::title::{is_noteworthy, project_title};
use gitlab_status::{
    make_title, status_icon, ApiError, Config, MergeRequestStatus, PipelineStatus, Project,
    ProjectReport,
};

fn project(title: &str) -> Project {
    Project {
        title: String::from(title),
        name: format!("group/{}", title),
        ignore_users: Vec::new(),
        branch_users: Vec::new(),
    }
}

fn config(titles: &[&str]) -> Config {
    Config {
        title: String::from("all quiet"),
        gitlab_url: String::from("https://host"),
        token: String::from("token"),
        project: titles.iter().map(|title| project(title)).collect(),
    }
}

fn quiet() -> ProjectReport {
    ProjectReport {
        approvals: Ok(0),
        status: Ok(PipelineStatus::Success),
        merge_requests: Ok(Vec::new()),
    }
}

fn flagged(branch: &str, status: PipelineStatus) -> MergeRequestStatus {
    MergeRequestStatus { branch: String::from(branch), status }
}

#[test]
fn status_icon_of_success_is_empty() {
    assert_eq!(status_icon(PipelineStatus::Success), "");
    assert_eq!(status_icon(PipelineStatus::Manual), "");
}

#[test]
fn status_icon_of_each_other_status() {
    assert_eq!(status_icon(PipelineStatus::Running), "🏃");
    assert_eq!(status_icon(PipelineStatus::Pending), "🕗");
    assert_eq!(status_icon(PipelineStatus::Failed), "💩");
    assert_eq!(status_icon(PipelineStatus::Canceled), "✋");
    assert_eq!(status_icon(PipelineStatus::Skipped), "⦳");
}

#[test]
fn quiet_project_has_no_fragment() {
    assert_eq!(project_title(&project("P"), &quiet()), "");
}

#[test]
fn pipeline_that_has_not_failed_is_not_noteworthy() {
    for status in [
        PipelineStatus::Running,
        PipelineStatus::Pending,
        PipelineStatus::Success,
        PipelineStatus::Canceled,
        PipelineStatus::Skipped,
        PipelineStatus::Manual,
    ] {
        let report = ProjectReport { status: Ok(status), ..quiet() };
        assert!(!is_noteworthy(&report));
        assert_eq!(project_title(&project("P"), &report), "");
    }
    let failed = ProjectReport { status: Ok(PipelineStatus::Failed), ..quiet() };
    assert!(is_noteworthy(&failed));
    assert_eq!(project_title(&project("P"), &failed), "P💩");
}

#[test]
fn fragment_is_title_status_count_and_branches() {
    let report = ProjectReport {
        approvals: Ok(2),
        status: Ok(PipelineStatus::Failed),
        merge_requests: Ok(vec![flagged("feat", PipelineStatus::Failed)]),
    };
    assert_eq!(project_title(&project("P:"), &report), "P:💩2feat💩");
}

#[test]
fn fragment_shows_only_what_is_noteworthy() {
    let pending = ProjectReport { approvals: Ok(12), ..quiet() };
    assert_eq!(project_title(&project("P"), &pending), "P12");
    let running = ProjectReport { approvals: Ok(3), status: Ok(PipelineStatus::Running), ..quiet() };
    assert_eq!(project_title(&project("P"), &running), "P🏃3");
    let skipped = ProjectReport { approvals: Ok(1), status: Ok(PipelineStatus::Skipped), ..quiet() };
    assert_eq!(project_title(&project("P"), &skipped), "P⦳1");
    let branches = ProjectReport {
        merge_requests: Ok(vec![
            flagged("a", PipelineStatus::Failed),
            flagged("b", PipelineStatus::Failed),
        ]),
        ..quiet()
    };
    assert_eq!(project_title(&project("P"), &branches), "Pa💩b💩");
}

#[test]
fn failures_show_as_marks() {
    let no_count = ProjectReport { approvals: Err(ApiError::Transport), ..quiet() };
    assert_eq!(project_title(&project("P"), &no_count), "P⨳");
    let no_status = ProjectReport { status: Err(ApiError::Host), ..quiet() };
    assert_eq!(project_title(&project("P"), &no_status), "P?");
    let no_scan = ProjectReport { merge_requests: Err(ApiError::Decode), ..quiet() };
    assert_eq!(project_title(&project("P"), &no_scan), "P⨳");
    let nothing = ProjectReport {
        approvals: Err(ApiError::Host),
        status: Err(ApiError::Host),
        merge_requests: Err(ApiError::Host),
    };
    assert_eq!(project_title(&project("P"), &nothing), "P?⨳⨳");
}

#[test]
fn title_joins_the_fragments_in_configuration_order() {
    let reports = vec![
        ProjectReport { status: Ok(PipelineStatus::Failed), ..quiet() },
        quiet(),
        ProjectReport { approvals: Ok(3), ..quiet() },
    ];
    assert_eq!(make_title(&config(&["A", "B", "C"]), &reports), "A💩C3");
}

#[test]
fn title_falls_back_to_the_configured_one() {
    assert_eq!(make_title(&config(&["A", "B"]), &vec![quiet(), quiet()]), "all quiet");
    assert_eq!(make_title(&config(&[]), &Vec::new()), "all quiet");
}

#[test]
fn title_pairs_reports_and_projects_by_position() {
    let busy = || ProjectReport { approvals: Ok(1), ..quiet() };
    assert_eq!(make_title(&config(&["A", "B"]), &vec![busy()]), "A1");
    assert_eq!(make_title(&config(&["A"]), &vec![busy(), busy()]), "A1");
}
