//! The watched-user scan: which open merge requests have a branch tip
//! that a watched user produced, are not merged yet, and have a failed
//! pipeline.

use vstd::prelude::*;
use crate::api::{Reply, ReplyView, Request, RequestView, Response, ResponseView, reply_view};
use crate::gitlab::{Gitlab, GitlabView};
use crate::model::{
    ApiError, Branch, BranchView, Commit, CommitView, MergeRequest, MergeRequestStatus,
    MergeRequestStatusView, MergeRequestView, PipelineStatus,
};
use crate::text::{contains, copy_names, has_substring};

verus! {

/// Whether `user` names the author or the committer of `commit`, by name
/// or by e-mail address, or stands somewhere in its message.
pub open spec fn touched_by(commit: CommitView, user: Seq<char>) -> bool {
    ||| commit.author_name == user
    ||| commit.author_email == user
    ||| commit.committer_name == user
    ||| commit.committer_email == user
    ||| has_substring(commit.message, user)
}

/// Whether one of `users` touched `commit`.
pub open spec fn watched(commit: CommitView, users: Seq<Seq<char>>) -> bool {
    exists|i: int| 0 <= i < users.len() && touched_by(commit, #[trigger] users[i])
}

/// Whether the branch of a merge request calls for a look at its
/// pipelines: the branch is not merged, its tip is the commit that the
/// merge request records, and a watched user touched that commit.
pub open spec fn is_suspect(
    branch: BranchView,
    merge_request: MergeRequestView,
    users: Seq<Seq<char>>,
) -> bool {
    &&& !branch.merged
    &&& branch.commit.id == merge_request.sha
    &&& watched(branch.commit, users)
}

/// Whether a reply to a branch request makes the merge request a suspect.
/// A failed lookup, or an answer of another shape, does not.
pub open spec fn suspect_reply(
    reply: ReplyView,
    merge_request: MergeRequestView,
    users: Seq<Seq<char>>,
) -> bool {
    reply matches Ok(ResponseView::Branch(branch)) && is_suspect(branch, merge_request, users)
}

/// Whether a reply to a request for failed pipelines shows at least one.
/// A failed lookup, or an answer of another shape, shows none.
pub open spec fn failure_reply(reply: ReplyView) -> bool {
    reply matches Ok(ResponseView::Pipelines(list)) && list.len() > 0
}

/// What the scan reports of a merge request that it keeps.
pub open spec fn report(merge_request: MergeRequestView) -> MergeRequestStatusView {
    MergeRequestStatusView { branch: merge_request.source_branch, status: PipelineStatus::Failed }
}

/// The reports of the merge requests that were kept, in list order:
/// `kept[i]` says whether the merge request at index `i` was.
pub open spec fn flagged(
    merge_requests: Seq<MergeRequestView>,
    kept: Seq<bool>,
) -> Seq<MergeRequestStatusView>
    decreases kept.len(),
{
    if kept.len() == 0 || kept.len() > merge_requests.len() {
        Seq::empty()
    } else {
        let earlier = flagged(merge_requests, kept.drop_last());
        if kept.last() {
            earlier.push(report(merge_requests[kept.len() - 1]))
        } else {
            earlier
        }
    }
}

/// Where a scan stands.
pub enum ScanStage {
    /// Waiting for the project's number.
    Resolving { name: Seq<char> },
    /// Waiting for the list of open merge requests.
    Listing { project: u32 },
    /// Going through the list. `kept` holds the verdict on each merge
    /// request decided so far; the next one is at index `kept.len()`, and
    /// `suspect` says that its branch made it a suspect, so that the scan
    /// waits for its failed pipelines and no longer for its branch.
    Scanning {
        project: u32,
        merge_requests: Seq<MergeRequestView>,
        kept: Seq<bool>,
        suspect: bool,
    },
    /// Ended by a failure to resolve the project or to fetch the list.
    Failed { error: ApiError },
}

/// A scan as the contracts see it.
pub struct ScanView {
    /// The watched users.
    pub users: Seq<Seq<char>>,
    pub stage: ScanStage,
}

impl ScanView {
    /// The scan that an engine starts for the project `name`: a project
    /// that the engine knows needs no request for its number.
    pub open spec fn start(gitlab: GitlabView, name: Seq<char>, users: Seq<Seq<char>>) -> ScanView {
        ScanView {
            users,
            stage: if gitlab.projects.contains_key(name) {
                ScanStage::Listing { project: gitlab.projects[name] }
            } else {
                ScanStage::Resolving { name }
            },
        }
    }

    /// What every scan that the engine hands out satisfies.
    pub open spec fn wf(self) -> bool {
        match self.stage {
            ScanStage::Scanning { merge_requests, kept, suspect, .. } => {
                &&& kept.len() <= merge_requests.len()
                &&& suspect ==> kept.len() < merge_requests.len()
            },
            _ => true,
        }
    }

    /// The request whose answer the scan waits for; `None` once it has
    /// ended.
    pub open spec fn request(self) -> Option<RequestView> {
        match self.stage {
            ScanStage::Resolving { name } => Some(RequestView::Project { name }),
            ScanStage::Listing { project } => Some(RequestView::MergeRequests { project }),
            ScanStage::Scanning { project, merge_requests, kept, suspect } => {
                if kept.len() >= merge_requests.len() {
                    None
                } else if suspect {
                    Some(
                        RequestView::FailedPipelines {
                            project,
                            sha: merge_requests[kept.len() as int].sha,
                        },
                    )
                } else {
                    Some(
                        RequestView::Branch {
                            project,
                            name: merge_requests[kept.len() as int].source_branch,
                        },
                    )
                }
            },
            ScanStage::Failed { .. } => None,
        }
    }

    /// What the scan has come to; `None` while it waits for an answer.
    pub open spec fn outcome(self) -> Option<Result<Seq<MergeRequestStatusView>, ApiError>> {
        match self.stage {
            ScanStage::Scanning { merge_requests, kept, .. } => {
                if kept.len() >= merge_requests.len() {
                    Some(Ok(flagged(merge_requests, kept)))
                } else {
                    None
                }
            },
            ScanStage::Failed { error } => Some(Err(error)),
            _ => None,
        }
    }

    /// The scan after it has decided on the merge request at hand: `keep`
    /// is the verdict, and the scan turns to the next merge request.
    pub open spec fn decided(self, keep: bool) -> ScanView {
        match self.stage {
            ScanStage::Scanning { project, merge_requests, kept, .. } => ScanView {
                stage: ScanStage::Scanning {
                    project,
                    merge_requests,
                    kept: kept.push(keep),
                    suspect: false,
                },
                ..self
            },
            _ => self,
        }
    }

    /// The scan after the answer to its request. A scan that has ended
    /// stays as it is.
    ///
    /// The answer to a branch request either makes the merge request at
    /// hand a suspect, whose failed pipelines are asked for next, or
    /// drops it. The answer to a request for failed pipelines keeps the
    /// suspect if it shows at least one, and drops it otherwise.
    pub open spec fn after(self, gitlab: GitlabView, reply: ReplyView) -> ScanView {
        match self.stage {
            ScanStage::Resolving { name } => ScanView {
                stage: match gitlab.resolution(name, reply) {
                    Ok(project) => ScanStage::Listing { project },
                    Err(error) => ScanStage::Failed { error },
                },
                ..self
            },
            ScanStage::Listing { project } => ScanView {
                stage: match reply {
                    Ok(ResponseView::MergeRequests(list)) => ScanStage::Scanning {
                        project,
                        merge_requests: list,
                        kept: Seq::empty(),
                        suspect: false,
                    },
                    Ok(_) => ScanStage::Failed { error: ApiError::Decode },
                    Err(error) => ScanStage::Failed { error },
                },
                ..self
            },
            ScanStage::Scanning { project, merge_requests, kept, suspect } => {
                if kept.len() >= merge_requests.len() {
                    self
                } else if suspect {
                    self.decided(failure_reply(reply))
                } else if suspect_reply(reply, merge_requests[kept.len() as int], self.users) {
                    ScanView {
                        stage: ScanStage::Scanning { project, merge_requests, kept, suspect: true },
                        ..self
                    }
                } else {
                    self.decided(false)
                }
            },
            ScanStage::Failed { .. } => self,
        }
    }

    /// The engine after the scan has taken the answer to its request: only
    /// the answer to a request for a project's number changes the engine.
    pub open spec fn engine_after(self, gitlab: GitlabView, reply: ReplyView) -> GitlabView {
        match self.stage {
            ScanStage::Resolving { name } => gitlab.resolved(name, reply),
            _ => gitlab,
        }
    }

    /// The scan after the answers of `replies` have come one after the
    /// other. `gitlab` is the engine as the first answer finds it: a scan
    /// looks at the engine only while it waits for the project's number,
    /// and that is the first thing it waits for, if at all.
    pub open spec fn after_all(self, gitlab: GitlabView, replies: Seq<ReplyView>) -> ScanView
        decreases replies.len(),
    {
        if replies.len() == 0 {
            self
        } else {
            self.after_all(gitlab, replies.drop_last()).after(gitlab, replies.last())
        }
    }
}

/// What the host has to say about each merge request of a list:
/// `branches[i]` is its answer to the request for the branch of the merge
/// request at index `i`, and `failures[i]` its answer to the request for
/// that merge request's failed pipelines, should the scan make it.
pub struct Host {
    pub branches: Seq<ReplyView>,
    pub failures: Seq<ReplyView>,
}

/// Whether the host's answers keep the merge request at index `i`: its
/// branch makes it a suspect, and it has a failed pipeline.
pub open spec fn verdict(
    merge_requests: Seq<MergeRequestView>,
    users: Seq<Seq<char>>,
    host: Host,
    i: int,
) -> bool {
    &&& suspect_reply(host.branches[i], merge_requests[i], users)
    &&& failure_reply(host.failures[i])
}

/// The verdicts on the first `n` merge requests.
pub open spec fn verdicts(
    merge_requests: Seq<MergeRequestView>,
    users: Seq<Seq<char>>,
    host: Host,
    n: nat,
) -> Seq<bool> {
    Seq::new(n, |i: int| verdict(merge_requests, users, host, i))
}

/// The answers that a scan of the first `n` merge requests gets from the
/// host, in the order in which it asks: for each merge request the answer
/// on its branch, and, where that makes it a suspect, the answer on its
/// failed pipelines.
pub open spec fn answers_to(
    merge_requests: Seq<MergeRequestView>,
    users: Seq<Seq<char>>,
    host: Host,
    n: nat,
) -> Seq<ReplyView>
    decreases n,
{
    if n == 0 {
        Seq::empty()
    } else {
        let i = n - 1;
        let so_far = answers_to(merge_requests, users, host, i as nat).push(host.branches[i]);
        if suspect_reply(host.branches[i], merge_requests[i], users) {
            so_far.push(host.failures[i])
        } else {
            so_far
        }
    }
}

/// A scan that satisfies `wf` still does after any answer.
pub proof fn scan_stays_wf(query: ScanView, gitlab: GitlabView, reply: ReplyView)
    requires
        query.wf(),
    ensures
        query.after(gitlab, reply).wf(),
{
}

/// A scan takes no project away from the engine, and changes no
/// project's number.
pub proof fn scan_keeps_known_projects(
    query: ScanView,
    gitlab: GitlabView,
    reply: ReplyView,
    name: Seq<char>,
)
    requires
        gitlab.projects.contains_key(name),
    ensures
        query.engine_after(gitlab, reply).projects.contains_key(name),
        query.engine_after(gitlab, reply).projects[name] == gitlab.projects[name],
{
}

/// A scan has an outcome exactly when it has no request left to make.
pub proof fn scan_ends_with_outcome(query: ScanView)
    ensures
        query.request() is None <==> query.outcome() is Some,
{
}

/// Whether the scan waits for the branch of a merge request.
pub open spec fn awaits_branch(query: ScanView) -> bool {
    &&& query.stage is Scanning
    &&& !query.stage->suspect
    &&& query.stage->kept.len() < query.stage->merge_requests.len()
}

/// A merge request whose branch is merged already is dropped, whatever
/// else holds of the branch.
pub proof fn merged_branch_is_dropped(query: ScanView, gitlab: GitlabView, branch: BranchView)
    requires
        awaits_branch(query),
        branch.merged,
    ensures
        query.after(gitlab, Ok(ResponseView::Branch(branch))) == query.decided(false),
{
}

/// A merge request whose branch has moved on (its tip is not the commit
/// that the merge request records) is dropped, even where a watched user
/// made the tip.
pub proof fn stale_branch_is_dropped(query: ScanView, gitlab: GitlabView, branch: BranchView)
    requires
        awaits_branch(query),
        branch.commit.id != query.stage->merge_requests[query.stage->kept.len() as int].sha,
    ensures
        query.after(gitlab, Ok(ResponseView::Branch(branch))) == query.decided(false),
{
}

/// A watched user who stands in the commit message only, and in none of
/// the author and committer fields, still makes the commit a watched one.
pub proof fn message_mention_is_watched(commit: CommitView, users: Seq<Seq<char>>, i: int)
    requires
        0 <= i < users.len(),
        has_substring(commit.message, users[i]),
    ensures
        watched(commit, users),
{
    assert(touched_by(commit, users[i]));
}

/// A merge request whose branch is unmerged and up to date becomes a
/// suspect as soon as one watched user stands in the commit message: its
/// failed pipelines are asked for next.
pub proof fn mentioned_user_makes_a_suspect(
    query: ScanView,
    gitlab: GitlabView,
    branch: BranchView,
    i: int,
)
    requires
        awaits_branch(query),
        !branch.merged,
        branch.commit.id == query.stage->merge_requests[query.stage->kept.len() as int].sha,
        0 <= i < query.users.len(),
        has_substring(branch.commit.message, query.users[i]),
    ensures
        query.after(gitlab, Ok(ResponseView::Branch(branch))).stage->suspect,
        query.after(gitlab, Ok(ResponseView::Branch(branch))).stage->kept == query.stage->kept,
        query.after(gitlab, Ok(ResponseView::Branch(branch))).request() == Some(
            RequestView::FailedPipelines {
                project: query.stage->Scanning_project,
                sha: query.stage->merge_requests[query.stage->kept.len() as int].sha,
            },
        ),
{
    message_mention_is_watched(branch.commit, query.users, i);
}

/// The reports depend on the merge requests decided so far only.
proof fn lemma_flagged_prefix(
    a: Seq<MergeRequestView>,
    b: Seq<MergeRequestView>,
    kept: Seq<bool>,
)
    requires
        kept.len() <= a.len(),
        kept.len() <= b.len(),
        forall|i: int| 0 <= i < kept.len() ==> a[i] == b[i],
    ensures
        flagged(a, kept) == flagged(b, kept),
    decreases kept.len(),
{
    if kept.len() > 0 {
        lemma_flagged_prefix(a, b, kept.drop_last());
    }
}

/// A merge request that was dropped leaves no trace in the reports: they
/// are what they would be had the list never held it.
pub proof fn dropped_is_not_reported(
    merge_requests: Seq<MergeRequestView>,
    kept: Seq<bool>,
    i: int,
)
    requires
        0 <= i < kept.len() <= merge_requests.len(),
        !kept[i],
    ensures
        flagged(merge_requests, kept) == flagged(merge_requests.remove(i), kept.remove(i)),
    decreases kept.len(),
{
    let n = kept.len() as int;
    if i == n - 1 {
        assert(kept.remove(i) =~= kept.drop_last());
        lemma_flagged_prefix(merge_requests, merge_requests.remove(i), kept.drop_last());
    } else {
        dropped_is_not_reported(merge_requests, kept.drop_last(), i);
        assert(kept.remove(i).drop_last() =~= kept.drop_last().remove(i));
        assert(kept.remove(i).last() == kept.last());
        assert(merge_requests.remove(i)[n - 2] == merge_requests[n - 1]);
        lemma_flagged_prefix(
            merge_requests.remove(i),
            merge_requests.drop_last().remove(i),
            kept.drop_last().remove(i),
        );
        lemma_flagged_prefix(merge_requests, merge_requests.drop_last(), kept.drop_last());
    }
}

/// Where a scan stands after it has got the host's answers on the first
/// `n` merge requests.
proof fn lemma_scan(
    scanning: ScanView,
    gitlab: GitlabView,
    merge_requests: Seq<MergeRequestView>,
    host: Host,
    n: nat,
)
    requires
        scanning.stage is Scanning,
        scanning.stage->merge_requests == merge_requests,
        scanning.stage->kept.len() == 0,
        !scanning.stage->suspect,
        host.branches.len() == merge_requests.len(),
        host.failures.len() == merge_requests.len(),
        n <= merge_requests.len(),
    ensures
        scanning.after_all(gitlab, answers_to(merge_requests, scanning.users, host, n))
            == (ScanView {
            users: scanning.users,
            stage: ScanStage::Scanning {
                project: scanning.stage->Scanning_project,
                merge_requests,
                kept: verdicts(merge_requests, scanning.users, host, n),
                suspect: false,
            },
        }),
    decreases n,
{
    let users = scanning.users;
    if n == 0 {
        assert(verdicts(merge_requests, users, host, 0) =~= scanning.stage->kept);
    } else {
        let i = (n - 1) as nat;
        lemma_scan(scanning, gitlab, merge_requests, host, i);
        let earlier = answers_to(merge_requests, users, host, i);
        let before = scanning.after_all(gitlab, earlier);
        let asked = earlier.push(host.branches[i as int]);
        assert(asked.drop_last() =~= earlier);
        assert(scanning.after_all(gitlab, asked) == before.after(gitlab, host.branches[i as int]));
        let kept = verdicts(merge_requests, users, host, i);
        if suspect_reply(host.branches[i as int], merge_requests[i as int], users) {
            let all = asked.push(host.failures[i as int]);
            assert(all.drop_last() =~= asked);
            assert(scanning.after_all(gitlab, all) == before.after(
                gitlab,
                host.branches[i as int],
            ).after(gitlab, host.failures[i as int]));
            assert(kept.push(failure_reply(host.failures[i as int])) =~= verdicts(
                merge_requests,
                users,
                host,
                n,
            ));
        } else {
            assert(kept.push(false) =~= verdicts(merge_requests, users, host, n));
        }
    }
}

/// Whatever the host answers, a scan reports exactly the merge requests
/// whose branch makes them a suspect and that have a failed pipeline, in
/// list order.
pub proof fn scan_reports_the_kept(
    query: ScanView,
    gitlab: GitlabView,
    project: u32,
    merge_requests: Seq<MergeRequestView>,
    host: Host,
)
    requires
        query.stage == (ScanStage::Listing { project }),
        host.branches.len() == merge_requests.len(),
        host.failures.len() == merge_requests.len(),
    ensures
        ({
            let n = merge_requests.len();
            query.after(gitlab, Ok(ResponseView::MergeRequests(merge_requests))).after_all(
                gitlab,
                answers_to(merge_requests, query.users, host, n),
            ).outcome() == Some(
                Ok::<Seq<MergeRequestStatusView>, ApiError>(
                    flagged(merge_requests, verdicts(merge_requests, query.users, host, n)),
                ),
            )
        }),
{
    let scanning = query.after(gitlab, Ok(ResponseView::MergeRequests(merge_requests)));
    lemma_scan(scanning, gitlab, merge_requests, host, merge_requests.len());
}

/// A merge request that was kept is reported.
pub proof fn kept_is_reported(merge_requests: Seq<MergeRequestView>, kept: Seq<bool>, i: int)
    requires
        0 <= i < kept.len() <= merge_requests.len(),
        kept[i],
    ensures
        flagged(merge_requests, kept).contains(report(merge_requests[i])),
    decreases kept.len(),
{
    let earlier = flagged(merge_requests, kept.drop_last());
    if i == kept.len() - 1 {
        assert(earlier.push(report(merge_requests[i])).last() == report(merge_requests[i]));
    } else {
        kept_is_reported(merge_requests, kept.drop_last(), i);
        let j = choose|j: int| 0 <= j < earlier.len() && earlier[j] == report(merge_requests[i]);
        assert(flagged(merge_requests, kept)[j] == report(merge_requests[i]));
    }
}

/// Whether `user` names the author or the committer of `commit`, or
/// stands in its message.
pub fn commit_touched_by(commit: &Commit, user: &String) -> (touched: bool)
    ensures
        touched == touched_by(commit@, user@),
{
    commit.author_name == *user || commit.author_email == *user || commit.committer_name == *user
        || commit.committer_email == *user || contains(commit.message.as_str(), user.as_str())
}

/// Whether one of `users` touched `commit`.
pub fn commit_watched(commit: &Commit, users: &Vec<String>) -> (found: bool)
    ensures
        found == watched(commit@, users.deep_view()),
{
    let mut i: usize = 0;
    while i < users.len()
        invariant
            i <= users.len(),
            forall|k: int| 0 <= k < i ==> !touched_by(commit@, #[trigger] users.deep_view()[k]),
        decreases users.len() - i,
    {
        if commit_touched_by(commit, &users[i]) {
            assert(touched_by(commit@, users.deep_view()[i as int]));
            return true;
        }
        i += 1;
    }
    false
}

/// Whether the branch of a merge request calls for a look at its
/// pipelines.
pub fn branch_is_suspect(
    branch: &Branch,
    merge_request: &MergeRequest,
    users: &Vec<String>,
) -> (suspect: bool)
    ensures
        suspect == is_suspect(branch@, merge_request@, users.deep_view()),
{
    !branch.merged && branch.commit.id == merge_request.sha && commit_watched(
        &branch.commit,
        users,
    )
}

/// The stage of a scan, with what the engine keeps to run it.
enum Work {
    Resolving { name: String },
    Listing { project: u32 },
    Scanning {
        project: u32,
        merge_requests: Vec<MergeRequest>,
        at: usize,
        suspect: bool,
        found: Vec<MergeRequestStatus>,
        kept: Ghost<Seq<bool>>,
    },
    Failed { error: ApiError },
}

/// A scan in progress. The caller asks it for the request to make, hands
/// the answer to `advance`, and goes on until there is no request left.
pub struct ScanQuery {
    users: Vec<String>,
    work: Work,
}

impl View for ScanQuery {
    type V = ScanView;

    closed spec fn view(&self) -> ScanView {
        ScanView {
            users: self.users.deep_view(),
            stage: match self.work {
                Work::Resolving { name } => ScanStage::Resolving { name: name@ },
                Work::Listing { project } => ScanStage::Listing { project },
                Work::Scanning {
                    project,
                    merge_requests,
                    suspect,
                    kept,
                    ..
                } => ScanStage::Scanning {
                    project,
                    merge_requests: merge_requests.deep_view(),
                    kept: kept@,
                    suspect,
                },
                Work::Failed { error } => ScanStage::Failed { error },
            },
        }
    }
}

impl ScanQuery {
    #[verifier::type_invariant]
    spec fn inv(self) -> bool {
        match self.work {
            Work::Scanning { merge_requests, at, suspect, found, kept, .. } => {
                &&& at == kept@.len()
                &&& at <= merge_requests.len()
                &&& suspect ==> at < merge_requests.len()
                &&& found.deep_view() == flagged(merge_requests.deep_view(), kept@)
            },
            _ => true,
        }
    }

    /// Starts a scan of the project `name` for the watched `users`.
    pub(crate) fn start(gitlab: &Gitlab, name: &str, users: &Vec<String>) -> (query: ScanQuery)
        ensures
            query@ == ScanView::start(gitlab@, name@, users.deep_view()),
            query@.wf(),
    {
        let work = match gitlab.project_id(name) {
            Some(project) => Work::Listing { project },
            None => Work::Resolving { name: name.to_owned() },
        };
        ScanQuery { users: copy_names(users), work }
    }

    /// The request to make next; `None` once the scan has ended.
    pub fn request(&self) -> (request: Option<Request>)
        ensures
            request.deep_view() == self@.request(),
    {
        proof {
            use_type_invariant(self);
        }
        match &self.work {
            Work::Resolving { name } => Some(Request::Project { name: name.clone() }),
            Work::Listing { project } => Some(Request::MergeRequests { project: *project }),
            Work::Scanning { project, merge_requests, at, suspect, .. } => {
                if *at >= merge_requests.len() {
                    None
                } else if *suspect {
                    Some(
                        Request::FailedPipelines {
                            project: *project,
                            sha: merge_requests[*at].sha.clone(),
                        },
                    )
                } else {
                    Some(
                        Request::Branch {
                            project: *project,
                            name: merge_requests[*at].source_branch.clone(),
                        },
                    )
                }
            },
            Work::Failed { .. } => None,
        }
    }

    /// What the scan has come to: the merge requests to report, in list
    /// order, or the failure that ended it; `None` while it waits for an
    /// answer.
    pub fn outcome(&self) -> (outcome: Option<Result<Vec<MergeRequestStatus>, ApiError>>)
        ensures
            match outcome {
                None => self@.outcome() is None,
                Some(Ok(found)) => self@.outcome() == Some(
                    Ok::<Seq<MergeRequestStatusView>, ApiError>(found.deep_view()),
                ),
                Some(Err(error)) => self@.outcome() == Some(
                    Err::<Seq<MergeRequestStatusView>, ApiError>(error),
                ),
            },
    {
        proof {
            use_type_invariant(self);
        }
        match &self.work {
            Work::Scanning { merge_requests, at, found, .. } => {
                if *at >= merge_requests.len() {
                    let mut copy: Vec<MergeRequestStatus> = Vec::new();
                    let mut i: usize = 0;
                    while i < found.len()
                        invariant
                            i <= found.len(),
                            copy.len() == i,
                            forall|k: int| 0 <= k < i ==> copy@[k]@ == found@[k]@,
                        decreases found.len() - i,
                    {
                        copy.push(
                            MergeRequestStatus {
                                branch: found[i].branch.clone(),
                                status: found[i].status,
                            },
                        );
                        i += 1;
                    }
                    assert(copy.deep_view() =~= found.deep_view());
                    Some(Ok(copy))
                } else {
                    None
                }
            },
            Work::Failed { error } => Some(Err(*error)),
            _ => None,
        }
    }

    /// Takes the answer to the request that `request` named, and moves on.
    ///
    /// A failure to resolve the project or to fetch the list ends the scan
    /// with that failure. A failed lookup of a branch or of the failed
    /// pipelines only drops the merge request it was made for.
    pub fn advance(self, gitlab: &mut Gitlab, reply: Reply) -> (next: ScanQuery)
        ensures
            next@ == self@.after(old(gitlab)@, reply_view(reply)),
            final(gitlab)@ == self@.engine_after(old(gitlab)@, reply_view(reply)),
            next@.wf(),
    {
        proof {
            use_type_invariant(&self);
        }
        let ScanQuery { users, work } = self;
        match work {
            Work::Resolving { name } => {
                let work = match gitlab.resolved(name.as_str(), reply) {
                    Ok(project) => Work::Listing { project },
                    Err(error) => Work::Failed { error },
                };
                ScanQuery { users, work }
            },
            Work::Listing { project } => {
                let work = match reply {
                    Ok(Response::MergeRequests(list)) => {
                        let found: Vec<MergeRequestStatus> = Vec::new();
                        assert(found.deep_view() =~= Seq::empty());
                        Work::Scanning {
                            project,
                            merge_requests: list,
                            at: 0,
                            suspect: false,
                            found,
                            kept: Ghost(Seq::empty()),
                        }
                    },
                    Ok(_) => Work::Failed { error: ApiError::Decode },
                    Err(error) => Work::Failed { error },
                };
                ScanQuery { users, work }
            },
            Work::Scanning { project, merge_requests, at, suspect, found, kept } => {
                if at >= merge_requests.len() {
                    ScanQuery {
                        users,
                        work: Work::Scanning { project, merge_requests, at, suspect, found, kept },
                    }
                } else if suspect {
                    let failed = match reply {
                        Ok(Response::Pipelines(list)) => list.len() > 0,
                        _ => false,
                    };
                    let mut found = found;
                    if failed {
                        found.push(
                            MergeRequestStatus {
                                branch: merge_requests[at].source_branch.clone(),
                                status: PipelineStatus::Failed,
                            },
                        );
                    }
                    proof {
                        assert(kept@.push(failed).drop_last() =~= kept@);
                        assert(found.deep_view() =~= flagged(
                            merge_requests.deep_view(),
                            kept@.push(failed),
                        ));
                    }
                    ScanQuery {
                        users,
                        work: Work::Scanning {
                            project,
                            merge_requests,
                            at: at + 1,
                            suspect: false,
                            found,
                            kept: Ghost(kept@.push(failed)),
                        },
                    }
                } else {
                    let suspect = match reply {
                        Ok(Response::Branch(branch)) => branch_is_suspect(
                            &branch,
                            &merge_requests[at],
                            &users,
                        ),
                        _ => false,
                    };
                    if suspect {
                        ScanQuery {
                            users,
                            work: Work::Scanning {
                                project,
                                merge_requests,
                                at,
                                suspect: true,
                                found,
                                kept,
                            },
                        }
                    } else {
                        proof {
                            assert(kept@.push(false).drop_last() =~= kept@);
                        }
                        ScanQuery {
                            users,
                            work: Work::Scanning {
                                project,
                                merge_requests,
                                at: at + 1,
                                suspect: false,
                                found,
                                kept: Ghost(kept@.push(false)),
                            },
                        }
                    }
                }
            },
            Work::Failed { error } => ScanQuery { users, work: Work::Failed { error } },
        }
    }
}

} // verus!
