//! The records that the host's REST API hands out, as far as the engine
//! reads them, each with its mathematical view.

use vstd::prelude::*;

verus! {

/// The state of a pipeline as the host reports it.
#[derive(Clone, Copy, Debug, PartialEq, Eq)]
pub enum PipelineStatus {
    Running,
    Pending,
    Success,
    Failed,
    Canceled,
    Skipped,
    Manual,
}

/// Why a request to the host gave no usable answer. Callers treat the three
/// alike; the variant only tells a reader of a log what went wrong.
#[derive(Clone, Copy, Debug, PartialEq, Eq)]
pub enum ApiError {
    /// The request did not reach the host, or its answer did not come back.
    Transport,
    /// The answer was not of the expected shape.
    Decode,
    /// The host answered with a status other than success.
    Host,
}

/// The author of a merge request.
#[derive(Clone, Debug, PartialEq, Eq)]
pub struct MergeRequestAuthor {
    pub id: u32,
    pub username: String,
}

/// The view of a `MergeRequestAuthor`: its texts as sequences of characters.
pub struct MergeRequestAuthorView {
    pub id: u32,
    pub username: Seq<char>,
}

impl View for MergeRequestAuthor {
    type V = MergeRequestAuthorView;

    open spec fn view(&self) -> MergeRequestAuthorView {
        MergeRequestAuthorView { id: self.id, username: self.username@ }
    }
}

impl DeepView for MergeRequestAuthor {
    type V = MergeRequestAuthorView;

    open spec fn deep_view(&self) -> MergeRequestAuthorView {
        self@
    }
}

/// An open merge request: a snapshot taken when the list was fetched.
#[derive(Clone, Debug, PartialEq, Eq)]
pub struct MergeRequest {
    pub id: u32,
    /// The number of the merge request within its project.
    pub iid: u32,
    pub author: MergeRequestAuthor,
    pub source_branch: String,
    /// The commit at the tip of the source branch when the host last looked.
    pub sha: String,
}

/// The view of a `MergeRequest`: its texts as sequences of characters.
pub struct MergeRequestView {
    pub id: u32,
    pub iid: u32,
    pub author: MergeRequestAuthorView,
    pub source_branch: Seq<char>,
    pub sha: Seq<char>,
}

impl View for MergeRequest {
    type V = MergeRequestView;

    open spec fn view(&self) -> MergeRequestView {
        MergeRequestView {
            id: self.id,
            iid: self.iid,
            author: self.author@,
            source_branch: self.source_branch@,
            sha: self.sha@,
        }
    }
}

impl DeepView for MergeRequest {
    type V = MergeRequestView;

    open spec fn deep_view(&self) -> MergeRequestView {
        self@
    }
}

/// The approval state of one merge request, seen by the operator whose token
/// made the request.
#[derive(Clone, Copy, Debug, PartialEq, Eq)]
pub struct MergeRequestApproval {
    pub id: u32,
    pub iid: u32,
    pub approvals_left: u32,
    pub user_can_approve: bool,
    pub user_has_approved: bool,
}

/// One pipeline of a list of pipelines.
#[derive(Clone, Debug, PartialEq, Eq)]
pub struct Pipeline {
    pub id: u32,
    pub status: PipelineStatus,
    pub ref_name: String,
    pub sha: String,
}

/// The view of a `Pipeline`: its texts as sequences of characters.
pub struct PipelineView {
    pub id: u32,
    pub status: PipelineStatus,
    pub ref_name: Seq<char>,
    pub sha: Seq<char>,
}

impl View for Pipeline {
    type V = PipelineView;

    open spec fn view(&self) -> PipelineView {
        PipelineView { id: self.id, status: self.status, ref_name: self.ref_name@, sha: self.sha@ }
    }
}

impl DeepView for Pipeline {
    type V = PipelineView;

    open spec fn deep_view(&self) -> PipelineView {
        self@
    }
}

/// What the host tells of a single pipeline beyond its list entry.
#[derive(Clone, Debug, PartialEq, Eq)]
pub struct PipelineDetail {
    pub id: u32,
    /// The commit that the ref pointed to before the pipeline's own commit.
    pub before_sha: String,
}

/// The view of a `PipelineDetail`: its texts as sequences of characters.
pub struct PipelineDetailView {
    pub id: u32,
    pub before_sha: Seq<char>,
}

impl View for PipelineDetail {
    type V = PipelineDetailView;

    open spec fn view(&self) -> PipelineDetailView {
        PipelineDetailView { id: self.id, before_sha: self.before_sha@ }
    }
}

impl DeepView for PipelineDetail {
    type V = PipelineDetailView;

    open spec fn deep_view(&self) -> PipelineDetailView {
        self@
    }
}

/// The commit at the tip of a branch.
#[derive(Clone, Debug, PartialEq, Eq)]
pub struct Commit {
    pub id: String,
    pub message: String,
    pub author_name: String,
    pub author_email: String,
    pub committer_name: String,
    pub committer_email: String,
}

/// The view of a `Commit`: its texts as sequences of characters.
pub struct CommitView {
    pub id: Seq<char>,
    pub message: Seq<char>,
    pub author_name: Seq<char>,
    pub author_email: Seq<char>,
    pub committer_name: Seq<char>,
    pub committer_email: Seq<char>,
}

impl View for Commit {
    type V = CommitView;

    open spec fn view(&self) -> CommitView {
        CommitView {
            id: self.id@,
            message: self.message@,
            author_name: self.author_name@,
            author_email: self.author_email@,
            committer_name: self.committer_name@,
            committer_email: self.committer_email@,
        }
    }
}

impl DeepView for Commit {
    type V = CommitView;

    open spec fn deep_view(&self) -> CommitView {
        self@
    }
}

/// A branch of the repository.
#[derive(Clone, Debug, PartialEq, Eq)]
pub struct Branch {
    pub name: String,
    /// Whether the branch has been merged into the default branch.
    pub merged: bool,
    pub commit: Commit,
}

/// The view of a `Branch`: its texts as sequences of characters.
pub struct BranchView {
    pub name: Seq<char>,
    pub merged: bool,
    pub commit: CommitView,
}

impl View for Branch {
    type V = BranchView;

    open spec fn view(&self) -> BranchView {
        BranchView { name: self.name@, merged: self.merged, commit: self.commit@ }
    }
}

impl DeepView for Branch {
    type V = BranchView;

    open spec fn deep_view(&self) -> BranchView {
        self@
    }
}

/// A merge request that deserves attention: its source branch and the
/// state of the pipeline that flagged it.
#[derive(Clone, Debug, PartialEq, Eq)]
pub struct MergeRequestStatus {
    pub branch: String,
    pub status: PipelineStatus,
}

/// The view of a `MergeRequestStatus`: its texts as sequences of characters.
pub struct MergeRequestStatusView {
    pub branch: Seq<char>,
    pub status: PipelineStatus,
}

impl View for MergeRequestStatus {
    type V = MergeRequestStatusView;

    open spec fn view(&self) -> MergeRequestStatusView {
        MergeRequestStatusView { branch: self.branch@, status: self.status }
    }
}

impl DeepView for MergeRequestStatus {
    type V = MergeRequestStatusView;

    open spec fn deep_view(&self) -> MergeRequestStatusView {
        self@
    }
}

} // verus!
