use gitlab_status::approvals::{needs_approval, without_ignored};
use gitlab_status::model::{MergeRequest, MergeRequestApproval, MergeRequestAuthor};
use gitlab_status::{ApiError, Gitlab, Reply, Request, Response};

fn open_request(iid: u32, author: &str) -> MergeRequest {
    MergeRequest {
        id: 1000 + iid,
        iid,
        author: MergeRequestAuthor { id: 1, username: String::from(author) },
        source_branch: format!("branch-{}", iid),
        sha: format!("sha-{}", iid),
    }
}

fn approval(iid: u32, left: u32, can: bool, has: bool) -> MergeRequestApproval {
    MergeRequestApproval {
        id: 1000 + iid,
        iid,
        approvals_left: left,
        user_can_approve: can,
        user_has_approved: has,
    }
}

fn run_count(
    gitlab: &mut Gitlab,
    name: &str,
    ignore: &Vec<String>,
    answer: &dyn Fn(&Request) -> Reply,
) -> (Vec<Request>, Result<usize, ApiError>) {
    let mut query = gitlab.merge_request_count(name, ignore);
    let mut asked = Vec::new();
    while let Some(request) = query.request() {
        assert!(query.outcome().is_none());
        let reply = answer(&request);
        asked.push(request);
        query = query.advance(gitlab, reply);
    }
    (asked, query.outcome().unwrap())
}

#[test]
fn one_pending_merge_request_is_counted() {
    let mut gitlab = Gitlab::new("https://host", "token");
    let (asked, count) = run_count(&mut gitlab, "group/p", &Vec::new(), &|request| match request {
        Request::Project { .. } => Ok(Response::Project { id: 42 }),
        Request::MergeRequests { .. } => Ok(Response::MergeRequests(vec![open_request(7, "bob")])),
        Request::Approvals { .. } => Ok(Response::Approvals(approval(7, 1, true, false))),
        _ => Err(ApiError::Host),
    });
    assert_eq!(count, Ok(1));
    assert_eq!(
        asked,
        vec![
            Request::Project { name: String::from("group/p") },
            Request::MergeRequests { project: 42 },
            Request::Approvals { project: 42, iid: 7 },
        ]
    );
}

#[test]
fn no_open_merge_request_counts_zero() {
    let mut gitlab = Gitlab::new("https://host", "token");
    let (asked, count) = run_count(&mut gitlab, "p", &Vec::new(), &|request| match request {
        Request::Project { .. } => Ok(Response::Project { id: 1 }),
        Request::MergeRequests { .. } => Ok(Response::MergeRequests(Vec::new())),
        _ => Err(ApiError::Host),
    });
    assert_eq!(count, Ok(0));
    assert_eq!(asked.len(), 2);
}

#[test]
fn ignored_authors_cost_no_approval_lookup() {
    let mut gitlab = Gitlab::new("https://host", "token");
    let ignore = vec![String::from("bot"), String::from("me")];
    let (asked, count) = run_count(&mut gitlab, "p", &ignore, &|request| match request {
        Request::Project { .. } => Ok(Response::Project { id: 5 }),
        Request::MergeRequests { .. } => Ok(Response::MergeRequests(vec![
            open_request(1, "bot"),
            open_request(2, "me"),
            open_request(3, "bot"),
        ])),
        _ => Ok(Response::Approvals(approval(0, 1, true, false))),
    });
    assert_eq!(count, Ok(0));
    assert_eq!(
        asked,
        vec![Request::Project { name: String::from("p") }, Request::MergeRequests { project: 5 }]
    );
}

#[test]
fn only_the_others_are_looked_up_in_list_order() {
    let mut gitlab = Gitlab::new("https://host", "token");
    let ignore = vec![String::from("bot")];
    let (asked, count) = run_count(&mut gitlab, "p", &ignore, &|request| match request {
        Request::Project { .. } => Ok(Response::Project { id: 5 }),
        Request::MergeRequests { .. } => Ok(Response::MergeRequests(vec![
            open_request(1, "bot"),
            open_request(2, "ann"),
            open_request(3, "bot"),
            open_request(4, "bob"),
            open_request(5, "cat"),
        ])),
        Request::Approvals { iid, .. } => Ok(Response::Approvals(approval(*iid, 1, true, false))),
        _ => Err(ApiError::Host),
    });
    assert_eq!(count, Ok(3));
    assert_eq!(
        asked[2..].to_vec(),
        vec![
            Request::Approvals { project: 5, iid: 2 },
            Request::Approvals { project: 5, iid: 4 },
            Request::Approvals { project: 5, iid: 5 },
        ]
    );
}

#[test]
fn no_approvals_left_is_never_counted() {
    for can in [false, true] {
        for has in [false, true] {
            assert!(!needs_approval(&approval(1, 0, can, has)));
        }
    }
}

#[test]
fn approval_needs_all_three_conditions() {
    assert!(needs_approval(&approval(1, 1, true, false)));
    assert!(needs_approval(&approval(1, 3, true, false)));
    assert!(!needs_approval(&approval(1, 1, false, false)));
    assert!(!needs_approval(&approval(1, 1, true, true)));
    assert!(!needs_approval(&approval(1, 1, false, true)));
}

#[test]
fn each_approval_state_counts_on_its_own() {
    let mut gitlab = Gitlab::new("https://host", "token");
    let (_, count) = run_count(&mut gitlab, "p", &Vec::new(), &|request| match request {
        Request::Project { .. } => Ok(Response::Project { id: 5 }),
        Request::MergeRequests { .. } => Ok(Response::MergeRequests(vec![
            open_request(1, "a"),
            open_request(2, "b"),
            open_request(3, "c"),
            open_request(4, "d"),
        ])),
        Request::Approvals { iid: 1, .. } => Ok(Response::Approvals(approval(1, 2, true, false))),
        Request::Approvals { iid: 2, .. } => Ok(Response::Approvals(approval(2, 0, true, false))),
        Request::Approvals { iid: 3, .. } => Ok(Response::Approvals(approval(3, 1, true, true))),
        Request::Approvals { iid: 4, .. } => Ok(Response::Approvals(approval(4, 1, true, false))),
        _ => Err(ApiError::Host),
    });
    assert_eq!(count, Ok(2));
}

#[test]
fn failed_approval_lookup_leaves_the_merge_request_out() {
    let mut gitlab = Gitlab::new("https://host", "token");
    let (asked, count) = run_count(&mut gitlab, "p", &Vec::new(), &|request| match request {
        Request::Project { .. } => Ok(Response::Project { id: 5 }),
        Request::MergeRequests { .. } => Ok(Response::MergeRequests(vec![
            open_request(1, "a"),
            open_request(2, "b"),
            open_request(3, "c"),
        ])),
        Request::Approvals { iid: 1, .. } => Err(ApiError::Transport),
        Request::Approvals { iid: 2, .. } => Ok(Response::Project { id: 9 }),
        Request::Approvals { iid, .. } => Ok(Response::Approvals(approval(*iid, 1, true, false))),
        _ => Err(ApiError::Host),
    });
    assert_eq!(count, Ok(1));
    assert_eq!(asked.len(), 5);
}

#[test]
fn failed_list_fetch_ends_the_count() {
    for error in [ApiError::Transport, ApiError::Decode, ApiError::Host] {
        let mut gitlab = Gitlab::new("https://host", "token");
        let (asked, count) = run_count(&mut gitlab, "p", &Vec::new(), &|request| match request {
            Request::Project { .. } => Ok(Response::Project { id: 5 }),
            _ => Err(error),
        });
        assert_eq!(count, Err(error));
        assert_eq!(asked.len(), 2);
    }
}

#[test]
fn list_of_another_shape_is_a_decode_failure() {
    let mut gitlab = Gitlab::new("https://host", "token");
    let (_, count) = run_count(&mut gitlab, "p", &Vec::new(), &|request| match request {
        Request::Project { .. } => Ok(Response::Project { id: 5 }),
        _ => Ok(Response::Pipelines(Vec::new())),
    });
    assert_eq!(count, Err(ApiError::Decode));
}

#[test]
fn failed_project_lookup_ends_the_count() {
    let mut gitlab = Gitlab::new("https://host", "token");
    let (asked, count) = run_count(&mut gitlab, "p", &Vec::new(), &|_| Err(ApiError::Host));
    assert_eq!(count, Err(ApiError::Host));
    assert_eq!(asked, vec![Request::Project { name: String::from("p") }]);
    assert_eq!(gitlab.project_id("p"), None);
}

#[test]
fn ended_count_ignores_further_answers() {
    let mut gitlab = Gitlab::new("https://host", "token");
    let query = gitlab.merge_request_count("p", &Vec::new());
    let query = query.advance(&mut gitlab, Ok(Response::Project { id: 5 }));
    let query = query.advance(&mut gitlab, Ok(Response::MergeRequests(Vec::new())));
    assert_eq!(query.outcome(), Some(Ok(0)));
    let query = query.advance(&mut gitlab, Ok(Response::Approvals(approval(1, 1, true, false))));
    assert_eq!(query.outcome(), Some(Ok(0)));
    assert_eq!(query.request(), None);
}

#[test]
fn without_ignored_keeps_the_order() {
    let list = vec![
        open_request(1, "bot"),
        open_request(2, "ann"),
        open_request(3, "bob"),
        open_request(4, "bot"),
    ];
    let kept = without_ignored(list, &vec![String::from("bot")]);
    assert_eq!(kept, vec![open_request(2, "ann"), open_request(3, "bob")]);
}
