//! The pipeline status of a ref: the state of its most recent pipeline
//! that no schedule started.

use vstd::prelude::*;
use crate::api::{Reply, ReplyView, Request, RequestView, Response, ResponseView, reply_view};
use crate::gitlab::{Gitlab, GitlabView};
use crate::model::{
    ApiError, Pipeline, PipelineDetail, PipelineDetailView, PipelineStatus, PipelineView,
};
use crate::text::{all_zeros, is_all_zeros};

verus! {

/// Whether a schedule started the pipeline. The host marks such a run by a
/// parent commit that consists of zeros only; a parent commit that is
/// empty counts as such a mark too.
pub open spec fn is_scheduled(detail: PipelineDetailView) -> bool {
    all_zeros(detail.before_sha)
}

/// What a reply to a detail request tells: the detail, or nothing where
/// the lookup failed or the answer had another shape.
pub open spec fn detail_in(reply: ReplyView) -> Option<PipelineDetailView> {
    match reply {
        Ok(ResponseView::PipelineDetail(detail)) => Some(detail),
        _ => None,
    }
}

/// Whether a lookup shows a pipeline that decides the status: its detail
/// came, and no schedule started it.
pub open spec fn decides(told: Option<PipelineDetailView>) -> bool {
    told matches Some(detail) && !is_scheduled(detail)
}

/// Where a status query stands.
pub enum StatusStage {
    /// Waiting for the project's number.
    Resolving { name: Seq<char> },
    /// Waiting for the list of the ref's pipelines.
    Listing { project: u32 },
    /// Looking up the detail of each pipeline in turn, until one decides:
    /// `seen` holds what the lookups so far have told, one entry per
    /// pipeline.
    Probing { project: u32, pipelines: Seq<PipelineView>, seen: Seq<Option<PipelineDetailView>> },
    /// Ended by a failure to resolve the project or to fetch the list.
    Failed { error: ApiError },
}

/// A status query as the contracts see it.
pub struct StatusView {
    /// The ref whose pipelines are asked for.
    pub ref_name: Seq<char>,
    pub stage: StatusStage,
}

impl StatusView {
    /// The query that an engine starts for the project `name`: a project
    /// that the engine knows needs no request for its number.
    pub open spec fn start(gitlab: GitlabView, name: Seq<char>, ref_name: Seq<char>) -> StatusView {
        StatusView {
            ref_name,
            stage: if gitlab.projects.contains_key(name) {
                StatusStage::Listing { project: gitlab.projects[name] }
            } else {
                StatusStage::Resolving { name }
            },
        }
    }

    /// What every query that the engine hands out satisfies: no lookup
    /// but the last one has shown a pipeline that decides.
    pub open spec fn wf(self) -> bool {
        match self.stage {
            StatusStage::Probing { pipelines, seen, .. } => {
                &&& seen.len() <= pipelines.len()
                &&& forall|j: int| 0 <= j < seen.len() - 1 ==> !decides(#[trigger] seen[j])
            },
            _ => true,
        }
    }

    /// The request whose answer the query waits for; `None` once it has
    /// ended.
    pub open spec fn request(self) -> Option<RequestView> {
        match self.stage {
            StatusStage::Resolving { name } => Some(RequestView::Project { name }),
            StatusStage::Listing { project } => Some(
                RequestView::Pipelines { project, ref_name: self.ref_name },
            ),
            StatusStage::Probing { project, pipelines, seen } => {
                if seen.len() > 0 && decides(seen.last()) {
                    None
                } else if seen.len() >= pipelines.len() {
                    None
                } else {
                    Some(
                        RequestView::PipelineDetail {
                            project,
                            pipeline: pipelines[seen.len() as int].id,
                        },
                    )
                }
            },
            StatusStage::Failed { .. } => None,
        }
    }

    /// What the query has come to; `None` while it waits for an answer.
    /// Where no pipeline decides, the status is `Skipped`.
    pub open spec fn outcome(self) -> Option<Result<PipelineStatus, ApiError>> {
        match self.stage {
            StatusStage::Probing { pipelines, seen, .. } => {
                if seen.len() > 0 && decides(seen.last()) {
                    Some(Ok(pipelines[seen.len() - 1].status))
                } else if seen.len() >= pipelines.len() {
                    Some(Ok(PipelineStatus::Skipped))
                } else {
                    None
                }
            },
            StatusStage::Failed { error } => Some(Err(error)),
            _ => None,
        }
    }

    /// The query after the answer to its request. A query that has ended
    /// stays as it is.
    pub open spec fn after(self, gitlab: GitlabView, reply: ReplyView) -> StatusView {
        match self.stage {
            StatusStage::Resolving { name } => StatusView {
                stage: match gitlab.resolution(name, reply) {
                    Ok(project) => StatusStage::Listing { project },
                    Err(error) => StatusStage::Failed { error },
                },
                ..self
            },
            StatusStage::Listing { project } => StatusView {
                stage: match reply {
                    Ok(ResponseView::Pipelines(list)) => StatusStage::Probing {
                        project,
                        pipelines: list,
                        seen: Seq::empty(),
                    },
                    Ok(_) => StatusStage::Failed { error: ApiError::Decode },
                    Err(error) => StatusStage::Failed { error },
                },
                ..self
            },
            StatusStage::Probing { project, pipelines, seen } => {
                if self.request() is None {
                    self
                } else {
                    StatusView {
                        stage: StatusStage::Probing {
                            project,
                            pipelines,
                            seen: seen.push(detail_in(reply)),
                        },
                        ..self
                    }
                }
            },
            StatusStage::Failed { .. } => self,
        }
    }

    /// The engine after the query has taken the answer to its request:
    /// only the answer to a request for a project's number changes the
    /// engine.
    pub open spec fn engine_after(self, gitlab: GitlabView, reply: ReplyView) -> GitlabView {
        match self.stage {
            StatusStage::Resolving { name } => gitlab.resolved(name, reply),
            _ => gitlab,
        }
    }

    /// The query after the answers of `replies` have come one after the
    /// other. `gitlab` is the engine as the first answer finds it: a query
    /// looks at the engine only while it waits for the project's number,
    /// and that is the first thing it waits for, if at all.
    pub open spec fn after_all(self, gitlab: GitlabView, replies: Seq<ReplyView>) -> StatusView
        decreases replies.len(),
    {
        if replies.len() == 0 {
            self
        } else {
            self.after_all(gitlab, replies.drop_last()).after(gitlab, replies.last())
        }
    }
}

/// The status that the answers to the detail requests lead to, from the
/// pipeline at index `from` on: that of the first pipeline whose answer
/// decides, and `Skipped` where there is none. `answers[i]` is the answer
/// to the request for the detail of `pipelines[i]`.
pub open spec fn status_from(
    pipelines: Seq<PipelineView>,
    answers: Seq<ReplyView>,
    from: int,
) -> PipelineStatus
    decreases pipelines.len() - from,
{
    if from < 0 || from >= pipelines.len() || from >= answers.len() {
        PipelineStatus::Skipped
    } else if decides(detail_in(answers[from])) {
        pipelines[from].status
    } else {
        status_from(pipelines, answers, from + 1)
    }
}

/// A status query that satisfies `wf` still does after any answer.
pub proof fn status_stays_wf(query: StatusView, gitlab: GitlabView, reply: ReplyView)
    requires
        query.wf(),
    ensures
        query.after(gitlab, reply).wf(),
{
}

/// A status query takes no project away from the engine, and changes no
/// project's number.
pub proof fn status_keeps_known_projects(
    query: StatusView,
    gitlab: GitlabView,
    reply: ReplyView,
    name: Seq<char>,
)
    requires
        gitlab.projects.contains_key(name),
    ensures
        query.engine_after(gitlab, reply).projects.contains_key(name),
        query.engine_after(gitlab, reply).projects[name] == gitlab.projects[name],
{
}

/// A status query has an outcome exactly when it has no request left to
/// make.
pub proof fn status_ends_with_outcome(query: StatusView)
    ensures
        query.request() is None <==> query.outcome() is Some,
{
}

/// The status that a query ends with is that of the first pipeline in
/// list order that decides; where the whole list was looked up and no
/// pipeline decides, it is `Skipped`.
pub proof fn first_deciding_pipeline_wins(query: StatusView, status: PipelineStatus)
    requires
        query.wf(),
        query.stage is Probing,
        query.outcome() == Some(Ok::<PipelineStatus, ApiError>(status)),
    ensures
        ({
            let pipelines = query.stage->pipelines;
            let seen = query.stage->seen;
            ||| exists|k: int|
                {
                    &&& 0 <= k < seen.len()
                    &&& decides(#[trigger] seen[k])
                    &&& forall|j: int| 0 <= j < k ==> !decides(#[trigger] seen[j])
                    &&& status == pipelines[k].status
                }
            ||| {
                &&& seen.len() == pipelines.len()
                &&& forall|j: int| 0 <= j < seen.len() ==> !decides(#[trigger] seen[j])
                &&& status == PipelineStatus::Skipped
            }
        }),
{
    let seen = query.stage->seen;
    if seen.len() > 0 && decides(seen.last()) {
        let k = seen.len() - 1;
        assert(decides(seen[k]));
    } else {
        assert forall|j: int| 0 <= j < seen.len() implies !decides(#[trigger] seen[j]) by {
            if j == seen.len() - 1 {
                assert(seen[j] == seen.last());
            }
        }
    }
}

/// Where the query stands after the first `k` answers to detail requests.
proof fn lemma_probe(
    probing: StatusView,
    gitlab: GitlabView,
    pipelines: Seq<PipelineView>,
    answers: Seq<ReplyView>,
    k: int,
)
    requires
        probing.stage is Probing,
        probing.stage->pipelines == pipelines,
        probing.stage->seen.len() == 0,
        answers.len() == pipelines.len(),
        0 <= k <= answers.len(),
    ensures
        ({
            let now = probing.after_all(gitlab, answers.take(k));
            let whole = status_from(pipelines, answers, 0);
            ||| now.outcome() == Some(Ok::<PipelineStatus, ApiError>(whole))
            ||| {
                &&& now.outcome() is None
                &&& now.stage is Probing
                &&& now.stage->pipelines == pipelines
                &&& now.stage->seen.len() == k
                &&& whole == status_from(pipelines, answers, k)
            }
        }),
    decreases k,
{
    if k > 0 {
        lemma_probe(probing, gitlab, pipelines, answers, k - 1);
        assert(answers.take(k).drop_last() =~= answers.take(k - 1));
        assert(answers.take(k).last() == answers[k - 1]);
        let before = probing.after_all(gitlab, answers.take(k - 1));
        if before.outcome() is None {
            let seen = before.stage->seen.push(detail_in(answers[k - 1]));
            assert(seen.last() == detail_in(answers[k - 1]));
        }
    } else {
        assert(answers.take(0) =~= Seq::empty());
    }
}

/// Whatever the host answers to the detail requests, a query ends with
/// the status of the first pipeline in list order whose answer decides,
/// and with `Skipped` where no answer does. Answers that come after the
/// query has ended change nothing.
pub proof fn status_is_of_first_deciding_pipeline(
    query: StatusView,
    gitlab: GitlabView,
    project: u32,
    pipelines: Seq<PipelineView>,
    answers: Seq<ReplyView>,
)
    requires
        query.stage == (StatusStage::Listing { project }),
        answers.len() == pipelines.len(),
    ensures
        query.after(gitlab, Ok(ResponseView::Pipelines(pipelines))).after_all(
            gitlab,
            answers,
        ).outcome() == Some(
            Ok::<PipelineStatus, ApiError>(status_from(pipelines, answers, 0)),
        ),
{
    let probing = query.after(gitlab, Ok(ResponseView::Pipelines(pipelines)));
    lemma_probe(probing, gitlab, pipelines, answers, answers.len() as int);
    assert(answers.take(answers.len() as int) =~= answers);
}

/// Where the list of pipelines is empty, the query ends with `Skipped`
/// as soon as the list has come.
pub proof fn empty_list_is_skipped(query: StatusView, gitlab: GitlabView, project: u32)
    requires
        query.stage == (StatusStage::Listing { project }),
    ensures
        query.after(gitlab, Ok(ResponseView::Pipelines(Seq::empty()))).outcome() == Some(
            Ok::<PipelineStatus, ApiError>(PipelineStatus::Skipped),
        ),
{
}

/// Where every pipeline of the list was looked up and none decides (each
/// was started by a schedule, or its lookup failed), the query has ended
/// with `Skipped`.
pub proof fn undecided_list_is_skipped(query: StatusView)
    requires
        query.stage is Probing,
        query.stage->seen.len() == query.stage->pipelines.len(),
        forall|j: int|
            0 <= j < query.stage->seen.len() ==> !decides(#[trigger] query.stage->seen[j]),
    ensures
        query.request() is None,
        query.outcome() == Some(Ok::<PipelineStatus, ApiError>(PipelineStatus::Skipped)),
{
}

/// Whether a schedule started the pipeline.
pub fn pipeline_is_scheduled(detail: &PipelineDetail) -> (scheduled: bool)
    ensures
        scheduled == is_scheduled(detail@),
{
    is_all_zeros(detail.before_sha.as_str())
}

/// The stage of a status query, with what the engine keeps to run it.
enum Work {
    Resolving { name: String },
    Listing { project: u32 },
    Probing {
        project: u32,
        pipelines: Vec<Pipeline>,
        at: usize,
        decided: bool,
        seen: Ghost<Seq<Option<PipelineDetailView>>>,
    },
    Failed { error: ApiError },
}

/// A status query in progress. The caller asks it for the request to
/// make, hands the answer to `advance`, and goes on until there is no
/// request left.
pub struct StatusQuery {
    ref_name: String,
    work: Work,
}

impl View for StatusQuery {
    type V = StatusView;

    closed spec fn view(&self) -> StatusView {
        StatusView {
            ref_name: self.ref_name@,
            stage: match self.work {
                Work::Resolving { name } => StatusStage::Resolving { name: name@ },
                Work::Listing { project } => StatusStage::Listing { project },
                Work::Probing { project, pipelines, seen, .. } => StatusStage::Probing {
                    project,
                    pipelines: pipelines.deep_view(),
                    seen: seen@,
                },
                Work::Failed { error } => StatusStage::Failed { error },
            },
        }
    }
}

impl StatusQuery {
    #[verifier::type_invariant]
    spec fn inv(self) -> bool {
        match self.work {
            Work::Probing { pipelines, at, decided, seen, .. } => {
                &&& at == seen@.len()
                &&& at <= pipelines.len()
                &&& decided == (seen@.len() > 0 && decides(seen@.last()))
                &&& forall|j: int| 0 <= j < seen@.len() - 1 ==> !decides(#[trigger] seen@[j])
            },
            _ => true,
        }
    }

    /// Starts a query for the status of `ref_name` in the project `name`.
    pub(crate) fn start(gitlab: &Gitlab, name: &str, ref_name: &str) -> (query: StatusQuery)
        ensures
            query@ == StatusView::start(gitlab@, name@, ref_name@),
            query@.wf(),
    {
        let work = match gitlab.project_id(name) {
            Some(project) => Work::Listing { project },
            None => Work::Resolving { name: name.to_owned() },
        };
        StatusQuery { ref_name: ref_name.to_owned(), work }
    }

    /// The request to make next; `None` once the query has ended.
    pub fn request(&self) -> (request: Option<Request>)
        ensures
            request.deep_view() == self@.request(),
    {
        proof {
            use_type_invariant(self);
        }
        match &self.work {
            Work::Resolving { name } => Some(Request::Project { name: name.clone() }),
            Work::Listing { project } => Some(
                Request::Pipelines { project: *project, ref_name: self.ref_name.clone() },
            ),
            Work::Probing { project, pipelines, at, decided, .. } => {
                if *decided || *at >= pipelines.len() {
                    None
                } else {
                    Some(Request::PipelineDetail { project: *project, pipeline: pipelines[*at].id })
                }
            },
            Work::Failed { .. } => None,
        }
    }

    /// What the query has come to: the status of the first pipeline in
    /// list order that decides, `Skipped` where none does, or the failure
    /// that ended the query; `None` while it waits for an answer.
    pub fn outcome(&self) -> (outcome: Option<Result<PipelineStatus, ApiError>>)
        ensures
            outcome == self@.outcome(),
    {
        proof {
            use_type_invariant(self);
        }
        match &self.work {
            Work::Probing { pipelines, at, decided, .. } => {
                if *decided {
                    Some(Ok(pipelines[*at - 1].status))
                } else if *at >= pipelines.len() {
                    Some(Ok(PipelineStatus::Skipped))
                } else {
                    None
                }
            },
            Work::Failed { error } => Some(Err(*error)),
            _ => None,
        }
    }

    /// Takes the answer to the request that `request` named, and moves on.
    ///
    /// A failure to resolve the project or to fetch the list ends the
    /// query with that failure. A failed detail lookup only passes its
    /// pipeline over.
    pub fn advance(self, gitlab: &mut Gitlab, reply: Reply) -> (next: StatusQuery)
        ensures
            next@ == self@.after(old(gitlab)@, reply_view(reply)),
            final(gitlab)@ == self@.engine_after(old(gitlab)@, reply_view(reply)),
            next@.wf(),
    {
        proof {
            use_type_invariant(&self);
        }
        let StatusQuery { ref_name, work } = self;
        match work {
            Work::Resolving { name } => {
                let work = match gitlab.resolved(name.as_str(), reply) {
                    Ok(project) => Work::Listing { project },
                    Err(error) => Work::Failed { error },
                };
                StatusQuery { ref_name, work }
            },
            Work::Listing { project } => {
                let work = match reply {
                    Ok(Response::Pipelines(list)) => Work::Probing {
                        project,
                        pipelines: list,
                        at: 0,
                        decided: false,
                        seen: Ghost(Seq::empty()),
                    },
                    Ok(_) => Work::Failed { error: ApiError::Decode },
                    Err(error) => Work::Failed { error },
                };
                StatusQuery { ref_name, work }
            },
            Work::Probing { project, pipelines, at, decided, seen } => {
                if decided || at >= pipelines.len() {
                    StatusQuery {
                        ref_name,
                        work: Work::Probing { project, pipelines, at, decided, seen },
                    }
                } else {
                    let decided = match reply {
                        Ok(Response::PipelineDetail(detail)) => !pipeline_is_scheduled(&detail),
                        _ => false,
                    };
                    let ghost told = detail_in(reply_view(reply));
                    StatusQuery {
                        ref_name,
                        work: Work::Probing {
                            project,
                            pipelines,
                            at: at + 1,
                            decided,
                            seen: Ghost(seen@.push(told)),
                        },
                    }
                }
            },
            Work::Failed { error } => StatusQuery { ref_name, work: Work::Failed { error } },
        }
    }
}

} // verus!
