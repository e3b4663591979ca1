//! The text for the menu bar: one fragment for each project that has
//! something to report.

use vstd::prelude::*;
use vstd::string::*;
use crate::config::{Config, ConfigView, Project, ProjectView};
use crate::model::{ApiError, MergeRequestStatus, MergeRequestStatusView, PipelineStatus};
use crate::text::{decimal, push_decimal};

verus! {

/// The glyph of a pipeline status. A pipeline that succeeded, or that
/// waits for a manual step, has none.
pub open spec fn status_glyph(status: PipelineStatus) -> Seq<char> {
    match status {
        PipelineStatus::Running => "🏃"@,
        PipelineStatus::Pending => "🕗"@,
        PipelineStatus::Success => ""@,
        PipelineStatus::Failed => "💩"@,
        PipelineStatus::Canceled => "✋"@,
        PipelineStatus::Skipped => "⦳"@,
        PipelineStatus::Manual => ""@,
    }
}

/// The glyph of a pipeline status.
pub fn status_icon(status: PipelineStatus) -> (icon: &'static str)
    ensures
        icon@ == status_glyph(status),
{
    match status {
        PipelineStatus::Running => "🏃",
        PipelineStatus::Pending => "🕗",
        PipelineStatus::Success => "",
        PipelineStatus::Failed => "💩",
        PipelineStatus::Canceled => "✋",
        PipelineStatus::Skipped => "⦳",
        PipelineStatus::Manual => "",
    }
}

/// What the three queries have found out about one project.
#[derive(Debug, PartialEq, Eq)]
pub struct ProjectReport {
    /// How many merge requests wait for the operator's approval.
    pub approvals: Result<usize, ApiError>,
    /// The pipeline status of the tracked branch.
    pub status: Result<PipelineStatus, ApiError>,
    /// The watched users' merge requests with a failed pipeline.
    pub merge_requests: Result<Vec<MergeRequestStatus>, ApiError>,
}

/// The view of a `ProjectReport`: its count as a natural number, its
/// texts as sequences of characters.
pub struct ProjectReportView {
    pub approvals: Result<nat, ApiError>,
    pub status: Result<PipelineStatus, ApiError>,
    pub merge_requests: Result<Seq<MergeRequestStatusView>, ApiError>,
}

impl View for ProjectReport {
    type V = ProjectReportView;

    open spec fn view(&self) -> ProjectReportView {
        ProjectReportView {
            approvals: match self.approvals {
                Ok(count) => Ok(count as nat),
                Err(error) => Err(error),
            },
            status: self.status,
            merge_requests: match self.merge_requests {
                Ok(list) => Ok(list.deep_view()),
                Err(error) => Err(error),
            },
        }
    }
}

impl DeepView for ProjectReport {
    type V = ProjectReportView;

    open spec fn deep_view(&self) -> ProjectReportView {
        self@
    }
}

/// How the pipeline status of the tracked branch is shown: by its glyph,
/// or by a question mark where it could not be found out.
pub open spec fn status_text(status: Result<PipelineStatus, ApiError>) -> Seq<char> {
    match status {
        Ok(status) => status_glyph(status),
        Err(_) => "?"@,
    }
}

/// How the approval count is shown: in decimal, not at all where it is
/// zero, and by a mark where it could not be found out.
pub open spec fn approvals_text(approvals: Result<nat, ApiError>) -> Seq<char> {
    match approvals {
        Ok(count) => if count == 0 {
            Seq::empty()
        } else {
            decimal(count)
        },
        Err(_) => "⨳"@,
    }
}

/// The flagged merge requests one after the other, each as the name of
/// its branch and the glyph of its status.
pub open spec fn branches_text(list: Seq<MergeRequestStatusView>) -> Seq<char>
    decreases list.len(),
{
    if list.len() == 0 {
        Seq::empty()
    } else {
        branches_text(list.drop_last()) + list.last().branch + status_glyph(list.last().status)
    }
}

/// How the watched users' merge requests are shown, with a mark where
/// they could not be found out.
pub open spec fn merge_requests_text(
    merge_requests: Result<Seq<MergeRequestStatusView>, ApiError>,
) -> Seq<char> {
    match merge_requests {
        Ok(list) => branches_text(list),
        Err(_) => "⨳"@,
    }
}

/// What a report has to show, without the project's title.
pub open spec fn findings(report: ProjectReportView) -> Seq<char> {
    status_text(report.status) + approvals_text(report.approvals) + merge_requests_text(
        report.merge_requests,
    )
}

/// Whether a report holds anything worth showing: approvals that are
/// pending, a pipeline that failed, a flagged merge request, or a query
/// that could not find out.
pub open spec fn noteworthy(report: ProjectReportView) -> bool {
    ||| report.approvals != Ok::<nat, ApiError>(0)
    ||| report.status is Err
    ||| report.status == Ok::<PipelineStatus, ApiError>(PipelineStatus::Failed)
    ||| report.merge_requests is Err
    ||| report.merge_requests->Ok_0.len() > 0
}

/// The fragment of one project: its title and its findings, or nothing
/// where the report is not noteworthy.
pub open spec fn fragment(project: ProjectView, report: ProjectReportView) -> Seq<char> {
    if noteworthy(report) {
        project.title + findings(report)
    } else {
        Seq::empty()
    }
}

/// The fragments of the first `n` projects, in order.
pub open spec fn fragments(
    projects: Seq<ProjectView>,
    reports: Seq<ProjectReportView>,
    n: nat,
) -> Seq<char>
    decreases n,
{
    if n == 0 || n > projects.len() || n > reports.len() {
        Seq::empty()
    } else {
        fragments(projects, reports, (n - 1) as nat) + fragment(projects[n - 1], reports[n - 1])
    }
}

/// How many projects have a report: the reports go with the projects by
/// position, and a project without one, or a report without a project,
/// shows nothing.
pub open spec fn reported(projects: Seq<ProjectView>, reports: Seq<ProjectReportView>) -> nat {
    if projects.len() <= reports.len() {
        projects.len()
    } else {
        reports.len()
    }
}

/// The text for the menu bar: the fragments of all projects, or the
/// configured title where no project has anything to show.
pub open spec fn title_text(config: ConfigView, reports: Seq<ProjectReportView>) -> Seq<char> {
    let all = fragments(config.project, reports, reported(config.project, reports));
    if all.len() == 0 {
        config.title
    } else {
        all
    }
}

/// Appends what a report has to show to `out`.
fn push_findings(out: &mut String, report: &ProjectReport)
    ensures
        final(out)@ == old(out)@ + findings(report@),
{
    match &report.status {
        Ok(status) => out.append(status_icon(*status)),
        Err(_) => out.append("?"),
    }
    match &report.approvals {
        Ok(count) => {
            if *count != 0 {
                push_decimal(out, *count as u64);
            }
        },
        Err(_) => out.append("⨳"),
    }
    assert(out@ =~= old(out)@ + status_text(report@.status) + approvals_text(report@.approvals));
    let ghost before = out@;
    match &report.merge_requests {
        Ok(list) => {
            let mut i: usize = 0;
            assert(list.deep_view().take(0) =~= Seq::empty());
            while i < list.len()
                invariant
                    i <= list.len(),
                    out@ == before + branches_text(list.deep_view().take(i as int)),
                decreases list.len() - i,
            {
                let ghost shown = list.deep_view().take(i + 1);
                assert(shown.drop_last() =~= list.deep_view().take(i as int));
                assert(shown.last() == list[i as int]@);
                out.append(list[i].branch.as_str());
                out.append(status_icon(list[i].status));
                assert(out@ =~= before + branches_text(shown));
                i += 1;
            }
            assert(list.deep_view().take(list.len() as int) =~= list.deep_view());
        },
        Err(_) => out.append("⨳"),
    }
    assert(out@ =~= old(out)@ + findings(report@));
}

/// Whether a report holds anything worth showing.
pub fn is_noteworthy(report: &ProjectReport) -> (worthy: bool)
    ensures
        worthy == noteworthy(report@),
{
    let pending = match &report.approvals {
        Ok(count) => *count != 0,
        Err(_) => true,
    };
    let failing = match &report.status {
        Ok(PipelineStatus::Failed) => true,
        Ok(_) => false,
        Err(_) => true,
    };
    let flagged = match &report.merge_requests {
        Ok(list) => list.len() != 0,
        Err(_) => true,
    };
    pending || failing || flagged
}

/// The fragment of one project: its title and its findings, or the empty
/// text where the report is not noteworthy.
pub fn project_title(project: &Project, report: &ProjectReport) -> (text: String)
    ensures
        text@ == fragment(project@, report@),
{
    if is_noteworthy(report) {
        let mut text = project.title.clone();
        push_findings(&mut text, report);
        text
    } else {
        String::new()
    }
}

/// The text for the menu bar. `reports[i]` is the report on the project
/// `config.project[i]`.
pub fn make_title(config: &Config, reports: &Vec<ProjectReport>) -> (title: String)
    ensures
        title@ == title_text(config@, reports.deep_view()),
{
    let n: usize = if config.project.len() <= reports.len() {
        config.project.len()
    } else {
        reports.len()
    };
    let mut title = String::new();
    let mut i: usize = 0;
    while i < n
        invariant
            i <= n,
            n == reported(config@.project, reports.deep_view()),
            title@ == fragments(config@.project, reports.deep_view(), i as nat),
        decreases n - i,
    {
        let text = project_title(&config.project[i], &reports[i]);
        title.append(text.as_str());
        i += 1;
    }
    if title.as_str().is_empty() {
        config.title.clone()
    } else {
        title
    }
}

} // verus!
