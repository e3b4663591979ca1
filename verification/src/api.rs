//! The requests that the engine asks its caller to make, and the answers
//! that the caller hands back.
//!
//! The engine performs no I/O. It names a request; the caller sends an
//! authenticated GET to the request's path, decodes the JSON body by the
//! request's kind, and hands the outcome back as a `Reply`.

use vstd::prelude::*;
use vstd::string::*;
use crate::encode::{percent_encode, percent_encoded};
use crate::model::{
    ApiError, Branch, BranchView, MergeRequest, MergeRequestApproval, MergeRequestView, Pipeline,
    PipelineDetail, PipelineDetailView, PipelineView,
};
use crate::text::{decimal, push_decimal};

verus! {

/// A GET request against the host's REST namespace.
#[derive(Clone, Debug, PartialEq, Eq)]
pub enum Request {
    /// The project of the given path-qualified name; answered by
    /// `Response::Project`.
    Project { name: String },
    /// The open merge requests of a project, one page of up to a hundred;
    /// answered by `Response::MergeRequests`.
    MergeRequests { project: u32 },
    /// The approval state of one merge request; answered by
    /// `Response::Approvals`.
    Approvals { project: u32, iid: u32 },
    /// The pipelines of a ref, one page of up to a hundred; answered by
    /// `Response::Pipelines`.
    Pipelines { project: u32, ref_name: String },
    /// The detail of one pipeline; answered by `Response::PipelineDetail`.
    PipelineDetail { project: u32, pipeline: u32 },
    /// One branch of the repository; answered by `Response::Branch`.
    Branch { project: u32, name: String },
    /// The failed pipelines of one commit; answered by
    /// `Response::Pipelines`.
    FailedPipelines { project: u32, sha: String },
}

/// The view of a `Request`: its texts as sequences of characters.
pub enum RequestView {
    Project { name: Seq<char> },
    MergeRequests { project: u32 },
    Approvals { project: u32, iid: u32 },
    Pipelines { project: u32, ref_name: Seq<char> },
    PipelineDetail { project: u32, pipeline: u32 },
    Branch { project: u32, name: Seq<char> },
    FailedPipelines { project: u32, sha: Seq<char> },
}

impl View for Request {
    type V = RequestView;

    open spec fn view(&self) -> RequestView {
        match *self {
            Request::Project { name } => RequestView::Project { name: name@ },
            Request::MergeRequests { project } => RequestView::MergeRequests { project },
            Request::Approvals { project, iid } => RequestView::Approvals { project, iid },
            Request::Pipelines { project, ref_name } => RequestView::Pipelines {
                project,
                ref_name: ref_name@,
            },
            Request::PipelineDetail { project, pipeline } => RequestView::PipelineDetail {
                project,
                pipeline,
            },
            Request::Branch { project, name } => RequestView::Branch { project, name: name@ },
            Request::FailedPipelines { project, sha } => RequestView::FailedPipelines {
                project,
                sha: sha@,
            },
        }
    }
}

impl DeepView for Request {
    type V = RequestView;

    open spec fn deep_view(&self) -> RequestView {
        self@
    }
}

/// The path under which every project lives, with the project's number.
pub open spec fn project_path(project: u32) -> Seq<char> {
    "/api/v4/projects/"@ + decimal(project as nat)
}

impl RequestView {
    /// The path and query of the request, from the host's root.
    pub open spec fn path(self) -> Seq<char> {
        match self {
            RequestView::Project { name } => "/api/v4/projects/"@ + percent_encoded(name),
            RequestView::MergeRequests { project } => project_path(project)
                + "/merge_requests?state=opened&per_page=100"@,
            RequestView::Approvals { project, iid } => project_path(project) + "/merge_requests/"@
                + decimal(iid as nat) + "/approvals"@,
            RequestView::Pipelines { project, ref_name } => project_path(project)
                + "/pipelines?ref="@ + ref_name + "&per_page=100"@,
            RequestView::PipelineDetail { project, pipeline } => project_path(project)
                + "/pipelines/"@ + decimal(pipeline as nat),
            RequestView::Branch { project, name } => project_path(project)
                + "/repository/branches/"@ + name,
            RequestView::FailedPipelines { project, sha } => project_path(project)
                + "/pipelines?status=failed&sha="@ + sha,
        }
    }
}

/// Starts a path with the prefix of the given project.
fn project_prefix(project: u32) -> (path: String)
    ensures
        path@ == project_path(project),
{
    let mut path = "/api/v4/projects/".to_owned();
    push_decimal(&mut path, project as u64);
    path
}

impl Request {
    /// The path and query of the request, from the host's root. Of the
    /// texts that go into it only a project's name is percent-encoded; a
    /// ref, a branch name and a commit id stand as they are.
    pub fn path(&self) -> (path: String)
        ensures
            path@ == self@.path(),
    {
        match self {
            Request::Project { name } => {
                let mut path = "/api/v4/projects/".to_owned();
                let encoded = percent_encode(name.as_str());
                path.append(encoded.as_str());
                path
            },
            Request::MergeRequests { project } => {
                let mut path = project_prefix(*project);
                path.append("/merge_requests?state=opened&per_page=100");
                path
            },
            Request::Approvals { project, iid } => {
                let mut path = project_prefix(*project);
                path.append("/merge_requests/");
                push_decimal(&mut path, *iid as u64);
                path.append("/approvals");
                path
            },
            Request::Pipelines { project, ref_name } => {
                let mut path = project_prefix(*project);
                path.append("/pipelines?ref=");
                path.append(ref_name.as_str());
                path.append("&per_page=100");
                path
            },
            Request::PipelineDetail { project, pipeline } => {
                let mut path = project_prefix(*project);
                path.append("/pipelines/");
                push_decimal(&mut path, *pipeline as u64);
                path
            },
            Request::Branch { project, name } => {
                let mut path = project_prefix(*project);
                path.append("/repository/branches/");
                path.append(name.as_str());
                path
            },
            Request::FailedPipelines { project, sha } => {
                let mut path = project_prefix(*project);
                path.append("/pipelines?status=failed&sha=");
                path.append(sha.as_str());
                path
            },
        }
    }
}

/// The decoded body of a successful answer.
#[derive(Clone, Debug, PartialEq, Eq)]
pub enum Response {
    Project { id: u32 },
    MergeRequests(Vec<MergeRequest>),
    Approvals(MergeRequestApproval),
    Pipelines(Vec<Pipeline>),
    PipelineDetail(PipelineDetail),
    Branch(Branch),
}

/// The view of a `Response`: its texts as sequences of characters.
pub enum ResponseView {
    Project { id: u32 },
    MergeRequests(Seq<MergeRequestView>),
    Approvals(MergeRequestApproval),
    Pipelines(Seq<PipelineView>),
    PipelineDetail(PipelineDetailView),
    Branch(BranchView),
}

impl View for Response {
    type V = ResponseView;

    open spec fn view(&self) -> ResponseView {
        match *self {
            Response::Project { id } => ResponseView::Project { id },
            Response::MergeRequests(list) => ResponseView::MergeRequests(list.deep_view()),
            Response::Approvals(approval) => ResponseView::Approvals(approval),
            Response::Pipelines(list) => ResponseView::Pipelines(list.deep_view()),
            Response::PipelineDetail(detail) => ResponseView::PipelineDetail(detail@),
            Response::Branch(branch) => ResponseView::Branch(branch@),
        }
    }
}

impl DeepView for Response {
    type V = ResponseView;

    open spec fn deep_view(&self) -> ResponseView {
        self@
    }
}

/// What came of one request: the decoded body, or why there is none.
pub type Reply = Result<Response, ApiError>;

/// A reply as the contracts see it.
pub type ReplyView = Result<ResponseView, ApiError>;

/// The view of a reply.
pub open spec fn reply_view(reply: Reply) -> ReplyView {
    match reply {
        Ok(response) => Ok(response@),
        Err(error) => Err(error),
    }
}

} // verus!
