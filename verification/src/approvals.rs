//! The approval count: how many open merge requests wait for the
//! operator's approval.

use vstd::prelude::*;
use crate::api::{Reply, ReplyView, Request, RequestView, Response, ResponseView, reply_view};
use crate::gitlab::{Gitlab, GitlabView};
use crate::model::{ApiError, MergeRequest, MergeRequestApproval, MergeRequestView};
use crate::text::{copy_names, is_listed, listed};

verus! {

/// Whether a merge request waits for the operator: approvals are still
/// missing, the operator may give one, and has not given one yet.
pub open spec fn awaits_operator(approval: MergeRequestApproval) -> bool {
    &&& approval.approvals_left > 0
    &&& approval.user_can_approve
    &&& !approval.user_has_approved
}

/// The merge requests of `list` whose author is not one of `ignore`, in
/// list order.
pub open spec fn unignored(
    list: Seq<MergeRequestView>,
    ignore: Seq<Seq<char>>,
) -> Seq<MergeRequestView>
    decreases list.len(),
{
    if list.len() == 0 {
        Seq::empty()
    } else {
        let earlier = unignored(list.drop_last(), ignore);
        if listed(ignore, list.last().author.username) {
            earlier
        } else {
            earlier.push(list.last())
        }
    }
}

/// What a reply to an approval request tells: the approval state, or
/// nothing where the lookup failed or the answer had another shape.
pub open spec fn approval_in(reply: ReplyView) -> Option<MergeRequestApproval> {
    match reply {
        Ok(ResponseView::Approvals(approval)) => Some(approval),
        _ => None,
    }
}

/// How many of the lookups in `seen` found a merge request that waits for
/// the operator. A lookup that told nothing counts for nothing.
pub open spec fn pending(seen: Seq<Option<MergeRequestApproval>>) -> nat
    decreases seen.len(),
{
    if seen.len() == 0 {
        0
    } else {
        let earlier = pending(seen.drop_last());
        match seen.last() {
            Some(approval) if awaits_operator(approval) => earlier + 1,
            _ => earlier,
        }
    }
}

/// Where a count stands.
pub enum CountStage {
    /// Waiting for the project's number.
    Resolving { name: Seq<char> },
    /// Waiting for the list of open merge requests.
    Listing { project: u32 },
    /// Looking up the approval state of each candidate in turn: `seen`
    /// holds what the lookups so far have told, one entry per candidate.
    Counting {
        project: u32,
        candidates: Seq<MergeRequestView>,
        seen: Seq<Option<MergeRequestApproval>>,
    },
    /// Ended by a failure to resolve the project or to fetch the list.
    Failed { error: ApiError },
}

/// A count as the contracts see it.
pub struct CountView {
    /// The authors whose merge requests are passed over.
    pub ignore: Seq<Seq<char>>,
    pub stage: CountStage,
}

impl CountView {
    /// The count that an engine starts for the project `name`: a project
    /// that the engine knows needs no request for its number.
    pub open spec fn start(
        gitlab: GitlabView,
        name: Seq<char>,
        ignore: Seq<Seq<char>>,
    ) -> CountView {
        CountView {
            ignore,
            stage: if gitlab.projects.contains_key(name) {
                CountStage::Listing { project: gitlab.projects[name] }
            } else {
                CountStage::Resolving { name }
            },
        }
    }

    /// What every count that the engine hands out satisfies.
    pub open spec fn wf(self) -> bool {
        match self.stage {
            CountStage::Counting { candidates, seen, .. } => seen.len() <= candidates.len(),
            _ => true,
        }
    }

    /// The request whose answer the count waits for; `None` once it has
    /// ended.
    pub open spec fn request(self) -> Option<RequestView> {
        match self.stage {
            CountStage::Resolving { name } => Some(RequestView::Project { name }),
            CountStage::Listing { project } => Some(RequestView::MergeRequests { project }),
            CountStage::Counting { project, candidates, seen } => {
                if seen.len() >= candidates.len() {
                    None
                } else {
                    Some(RequestView::Approvals { project, iid: candidates[seen.len() as int].iid })
                }
            },
            CountStage::Failed { .. } => None,
        }
    }

    /// What the count has come to; `None` while it waits for an answer.
    pub open spec fn outcome(self) -> Option<Result<nat, ApiError>> {
        match self.stage {
            CountStage::Counting { candidates, seen, .. } => {
                if seen.len() >= candidates.len() {
                    Some(Ok(pending(seen)))
                } else {
                    None
                }
            },
            CountStage::Failed { error } => Some(Err(error)),
            _ => None,
        }
    }

    /// The count after the answer to its request. A count that has ended
    /// stays as it is.
    pub open spec fn after(self, gitlab: GitlabView, reply: ReplyView) -> CountView {
        match self.stage {
            CountStage::Resolving { name } => CountView {
                stage: match gitlab.resolution(name, reply) {
                    Ok(project) => CountStage::Listing { project },
                    Err(error) => CountStage::Failed { error },
                },
                ..self
            },
            CountStage::Listing { project } => CountView {
                stage: match reply {
                    Ok(ResponseView::MergeRequests(list)) => CountStage::Counting {
                        project,
                        candidates: unignored(list, self.ignore),
                        seen: Seq::empty(),
                    },
                    Ok(_) => CountStage::Failed { error: ApiError::Decode },
                    Err(error) => CountStage::Failed { error },
                },
                ..self
            },
            CountStage::Counting { project, candidates, seen } => {
                if seen.len() >= candidates.len() {
                    self
                } else {
                    CountView {
                        stage: CountStage::Counting {
                            project,
                            candidates,
                            seen: seen.push(approval_in(reply)),
                        },
                        ..self
                    }
                }
            },
            CountStage::Failed { .. } => self,
        }
    }

    /// The engine after the count has taken the answer to its request:
    /// only the answer to a request for a project's number changes the
    /// engine.
    pub open spec fn engine_after(self, gitlab: GitlabView, reply: ReplyView) -> GitlabView {
        match self.stage {
            CountStage::Resolving { name } => gitlab.resolved(name, reply),
            _ => gitlab,
        }
    }

    /// The count after the answers of `replies` have come one after the
    /// other. `gitlab` is the engine as the first answer finds it: a count
    /// looks at the engine only while it waits for the project's number,
    /// and that is the first thing it waits for, if at all.
    pub open spec fn after_all(self, gitlab: GitlabView, replies: Seq<ReplyView>) -> CountView
        decreases replies.len(),
    {
        if replies.len() == 0 {
            self
        } else {
            self.after_all(gitlab, replies.drop_last()).after(gitlab, replies.last())
        }
    }
}

/// What the answers to the approval requests tell, one entry per answer.
pub open spec fn told(answers: Seq<ReplyView>) -> Seq<Option<MergeRequestApproval>> {
    Seq::new(answers.len(), |i: int| approval_in(answers[i]))
}

/// A count that satisfies `wf` still does after any answer.
pub proof fn count_stays_wf(query: CountView, gitlab: GitlabView, reply: ReplyView)
    requires
        query.wf(),
    ensures
        query.after(gitlab, reply).wf(),
{
}

/// A count takes no project away from the engine, and changes no
/// project's number.
pub proof fn count_keeps_known_projects(
    query: CountView,
    gitlab: GitlabView,
    reply: ReplyView,
    name: Seq<char>,
)
    requires
        gitlab.projects.contains_key(name),
    ensures
        query.engine_after(gitlab, reply).projects.contains_key(name),
        query.engine_after(gitlab, reply).projects[name] == gitlab.projects[name],
{
}

/// A count has an outcome exactly when it has no request left to make.
pub proof fn count_ends_with_outcome(query: CountView)
    ensures
        query.request() is None <==> query.outcome() is Some,
{
}

/// A list whose authors are all ignored leaves no candidate.
proof fn lemma_all_ignored(list: Seq<MergeRequestView>, ignore: Seq<Seq<char>>)
    requires
        forall|i: int| 0 <= i < list.len() ==> listed(ignore, #[trigger] list[i].author.username),
    ensures
        unignored(list, ignore) == Seq::<MergeRequestView>::empty(),
    decreases list.len(),
{
    if list.len() > 0 {
        lemma_all_ignored(list.drop_last(), ignore);
    }
}

/// Where every open merge request is by an ignored author, the count ends
/// at zero as soon as the list has come: not one approval is looked up.
pub proof fn ignored_authors_count_zero(
    query: CountView,
    gitlab: GitlabView,
    project: u32,
    list: Seq<MergeRequestView>,
)
    requires
        query.stage == (CountStage::Listing { project }),
        forall|i: int|
            0 <= i < list.len() ==> listed(query.ignore, #[trigger] list[i].author.username),
    ensures
        query.after(gitlab, Ok(ResponseView::MergeRequests(list))).request() is None,
        query.after(gitlab, Ok(ResponseView::MergeRequests(list))).outcome() == Some(
            Ok::<nat, ApiError>(0),
        ),
{
    lemma_all_ignored(list, query.ignore);
}

/// Where the count stands after the first `k` answers to approval
/// requests.
proof fn lemma_tally(counting: CountView, gitlab: GitlabView, answers: Seq<ReplyView>, k: int)
    requires
        counting.stage is Counting,
        counting.stage->seen.len() == 0,
        answers.len() == counting.stage->candidates.len(),
        0 <= k <= answers.len(),
    ensures
        ({
            let now = counting.after_all(gitlab, answers.take(k));
            &&& now.stage is Counting
            &&& now.stage->candidates == counting.stage->candidates
            &&& now.stage->seen == told(answers.take(k))
        }),
    decreases k,
{
    if k > 0 {
        lemma_tally(counting, gitlab, answers, k - 1);
        assert(answers.take(k).drop_last() =~= answers.take(k - 1));
        assert(answers.take(k).last() == answers[k - 1]);
        assert(told(answers.take(k - 1)).push(approval_in(answers[k - 1])) =~= told(
            answers.take(k),
        ));
    } else {
        assert(answers.take(0) =~= Seq::empty());
        assert(told(answers.take(0)) =~= Seq::empty());
    }
}

/// Whatever the host answers to the approval requests, the count ends
/// with the number of answers that show a merge request waiting for the
/// operator. `answers[i]` is the answer to the request for the candidate
/// at index `i`: the merge requests of ignored authors get no request.
pub proof fn count_is_of_pending_answers(
    query: CountView,
    gitlab: GitlabView,
    project: u32,
    list: Seq<MergeRequestView>,
    answers: Seq<ReplyView>,
)
    requires
        query.stage == (CountStage::Listing { project }),
        answers.len() == unignored(list, query.ignore).len(),
    ensures
        query.after(gitlab, Ok(ResponseView::MergeRequests(list))).after_all(
            gitlab,
            answers,
        ).outcome() == Some(Ok::<nat, ApiError>(pending(told(answers)))),
{
    let counting = query.after(gitlab, Ok(ResponseView::MergeRequests(list)));
    lemma_tally(counting, gitlab, answers, answers.len() as int);
    assert(answers.take(answers.len() as int) =~= answers);
}

/// A merge request with no approval left to give is not counted, whatever
/// its two other flags say.
pub proof fn fully_approved_never_counts(
    seen: Seq<Option<MergeRequestApproval>>,
    approval: MergeRequestApproval,
)
    requires
        approval.approvals_left == 0,
    ensures
        !awaits_operator(approval),
        pending(seen.push(Some(approval))) == pending(seen),
{
    assert(seen.push(Some(approval)).drop_last() =~= seen);
}

/// A lookup that told nothing adds nothing to the count, and the count
/// never exceeds the number of lookups.
pub proof fn pending_is_bounded(seen: Seq<Option<MergeRequestApproval>>)
    ensures
        pending(seen.push(None)) == pending(seen),
        pending(seen) <= seen.len(),
    decreases seen.len(),
{
    assert(seen.push(None).drop_last() =~= seen);
    if seen.len() > 0 {
        pending_is_bounded(seen.drop_last());
    }
}

/// Whether a merge request waits for the operator's approval.
pub fn needs_approval(approval: &MergeRequestApproval) -> (needed: bool)
    ensures
        needed == awaits_operator(*approval),
{
    approval.approvals_left > 0 && approval.user_can_approve && !approval.user_has_approved
}

/// The merge requests of `list` whose author is not one of `ignore`, in
/// list order.
pub fn without_ignored(list: Vec<MergeRequest>, ignore: &Vec<String>) -> (kept: Vec<MergeRequest>)
    ensures
        kept.deep_view() == unignored(list.deep_view(), ignore.deep_view()),
{
    let ghost whole = list.deep_view();
    let mut kept: Vec<MergeRequest> = Vec::new();
    assert(kept.deep_view() =~= unignored(whole.take(0), ignore.deep_view()));
    for merge_request in it: list
        invariant
            it.seq().len() == whole.len(),
            forall|k: int| 0 <= k < whole.len() ==> (#[trigger] it.seq()[k])@ == whole[k],
            kept.deep_view() == unignored(whole.take(it.index() as int), ignore.deep_view()),
    {
        let ghost before = kept.deep_view();
        let ghost prefix = whole.take(it.index() + 1);
        assert(prefix.drop_last() =~= whole.take(it.index() as int));
        assert(prefix.last() == merge_request@);
        if !is_listed(ignore, &merge_request.author.username) {
            kept.push(merge_request);
            assert(kept.deep_view() =~= before.push(merge_request@));
        }
    }
    assert(whole.take(whole.len() as int) =~= whole);
    kept
}

/// The stage of a count, with what the engine keeps to run it.
enum Work {
    Resolving { name: String },
    Listing { project: u32 },
    Counting {
        project: u32,
        candidates: Vec<MergeRequest>,
        at: usize,
        count: usize,
        seen: Ghost<Seq<Option<MergeRequestApproval>>>,
    },
    Failed { error: ApiError },
}

/// A count in progress. The caller asks it for the request to make, hands
/// the answer to `advance`, and goes on until there is no request left.
pub struct CountQuery {
    ignore: Vec<String>,
    work: Work,
}

impl View for CountQuery {
    type V = CountView;

    closed spec fn view(&self) -> CountView {
        CountView {
            ignore: self.ignore.deep_view(),
            stage: match self.work {
                Work::Resolving { name } => CountStage::Resolving { name: name@ },
                Work::Listing { project } => CountStage::Listing { project },
                Work::Counting { project, candidates, seen, .. } => CountStage::Counting {
                    project,
                    candidates: candidates.deep_view(),
                    seen: seen@,
                },
                Work::Failed { error } => CountStage::Failed { error },
            },
        }
    }
}

impl CountQuery {
    #[verifier::type_invariant]
    spec fn inv(self) -> bool {
        match self.work {
            Work::Counting { candidates, at, count, seen, .. } => {
                &&& at == seen@.len()
                &&& at <= candidates.len()
                &&& count == pending(seen@)
                &&& count <= at
            },
            _ => true,
        }
    }

    /// Starts a count for the project `name` that passes over the merge
    /// requests of the authors in `ignore`.
    pub(crate) fn start(gitlab: &Gitlab, name: &str, ignore: &Vec<String>) -> (query: CountQuery)
        ensures
            query@ == CountView::start(gitlab@, name@, ignore.deep_view()),
            query@.wf(),
    {
        let work = match gitlab.project_id(name) {
            Some(project) => Work::Listing { project },
            None => Work::Resolving { name: name.to_owned() },
        };
        CountQuery { ignore: copy_names(ignore), work }
    }

    /// The request to make next; `None` once the count has ended.
    pub fn request(&self) -> (request: Option<Request>)
        ensures
            request.deep_view() == self@.request(),
    {
        proof {
            use_type_invariant(self);
        }
        match &self.work {
            Work::Resolving { name } => Some(Request::Project { name: name.clone() }),
            Work::Listing { project } => Some(Request::MergeRequests { project: *project }),
            Work::Counting { project, candidates, at, .. } => {
                if *at >= candidates.len() {
                    None
                } else {
                    Some(Request::Approvals { project: *project, iid: candidates[*at].iid })
                }
            },
            Work::Failed { .. } => None,
        }
    }

    /// What the count has come to: the number of merge requests that wait
    /// for the operator, or the failure that ended it; `None` while it
    /// waits for an answer.
    pub fn outcome(&self) -> (outcome: Option<Result<usize, ApiError>>)
        ensures
            match outcome {
                None => self@.outcome() is None,
                Some(Ok(count)) => self@.outcome() == Some(Ok::<nat, ApiError>(count as nat)),
                Some(Err(error)) => self@.outcome() == Some(Err::<nat, ApiError>(error)),
            },
    {
        proof {
            use_type_invariant(self);
        }
        match &self.work {
            Work::Counting { candidates, at, count, .. } => {
                if *at >= candidates.len() {
                    Some(Ok(*count))
                } else {
                    None
                }
            },
            Work::Failed { error } => Some(Err(*error)),
            _ => None,
        }
    }

    /// Takes the answer to the request that `request` named, and moves on.
    ///
    /// A failure to resolve the project or to fetch the list ends the
    /// count with that failure. A failed approval lookup only leaves its
    /// merge request out of the count.
    pub fn advance(self, gitlab: &mut Gitlab, reply: Reply) -> (next: CountQuery)
        ensures
            next@ == self@.after(old(gitlab)@, reply_view(reply)),
            final(gitlab)@ == self@.engine_after(old(gitlab)@, reply_view(reply)),
            next@.wf(),
    {
        proof {
            use_type_invariant(&self);
        }
        let CountQuery { ignore, work } = self;
        match work {
            Work::Resolving { name } => {
                let work = match gitlab.resolved(name.as_str(), reply) {
                    Ok(project) => Work::Listing { project },
                    Err(error) => Work::Failed { error },
                };
                CountQuery { ignore, work }
            },
            Work::Listing { project } => {
                let work = match reply {
                    Ok(Response::MergeRequests(list)) => Work::Counting {
                        project,
                        candidates: without_ignored(list, &ignore),
                        at: 0,
                        count: 0,
                        seen: Ghost(Seq::empty()),
                    },
                    Ok(_) => Work::Failed { error: ApiError::Decode },
                    Err(error) => Work::Failed { error },
                };
                CountQuery { ignore, work }
            },
            Work::Counting { project, candidates, at, count, seen } => {
                if at >= candidates.len() {
                    CountQuery {
                        ignore,
                        work: Work::Counting { project, candidates, at, count, seen },
                    }
                } else {
                    let counts = match reply {
                        Ok(Response::Approvals(approval)) => needs_approval(&approval),
                        _ => false,
                    };
                    let ghost told = approval_in(reply_view(reply));
                    proof {
                        assert(seen@.push(told).drop_last() =~= seen@);
                    }
                    CountQuery {
                        ignore,
                        work: Work::Counting {
                            project,
                            candidates,
                            at: at + 1,
                            count: if counts {
                                count + 1
                            } else {
                                count
                            },
                            seen: Ghost(seen@.push(told)),
                        },
                    }
                }
            },
            Work::Failed { error } => CountQuery { ignore, work: Work::Failed { error } },
        }
    }
}

} // verus!
