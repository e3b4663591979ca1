//! One polling cycle: the three queries for each configured project, one
//! after the other, and the title that their outcomes add up to.

use vstd::prelude::*;
use crate::api::{Reply, ReplyView, Request, RequestView, reply_view};
use crate::approvals::{count_ends_with_outcome, count_stays_wf, CountQuery, CountView};
use crate::config::{Config, ConfigView};
use crate::gitlab::{Gitlab, GitlabView};
use crate::model::{ApiError, PipelineStatus};
use crate::scan::{scan_ends_with_outcome, scan_stays_wf, ScanQuery, ScanView};
use crate::status::{status_ends_with_outcome, status_stays_wf, StatusQuery, StatusView};
use crate::title::{make_title, title_text, ProjectReport, ProjectReportView};

verus! {

/// The ref whose pipelines stand for a project's state.
pub open spec fn tracked_ref() -> Seq<char> {
    "master"@
}

/// What a cycle is busy with.
pub enum CyclePhase {
    /// Counting the merge requests of the project at hand that wait for
    /// approval.
    Counting { count: CountView },
    /// Finding the pipeline status of the project's tracked ref.
    Checking { approvals: Result<nat, ApiError>, check: StatusView },
    /// Scanning the project's merge requests for the watched users'.
    Scanning {
        approvals: Result<nat, ApiError>,
        status: Result<PipelineStatus, ApiError>,
        scan: ScanView,
    },
    /// Every project has its report.
    Done,
}

/// A cycle as the contracts see it.
pub struct CycleView {
    pub config: ConfigView,
    /// The reports on the projects done with, in configuration order; the
    /// project at hand is the one at index `reports.len()`.
    pub reports: Seq<ProjectReportView>,
    pub phase: CyclePhase,
}

impl CycleView {
    /// The cycle that turns to the project at index `reports.len()`, or
    /// is done where no project is left.
    pub open spec fn turn_to_next(
        config: ConfigView,
        reports: Seq<ProjectReportView>,
        gitlab: GitlabView,
    ) -> CycleView {
        CycleView {
            config,
            reports,
            phase: if reports.len() < config.project.len() {
                let project = config.project[reports.len() as int];
                CyclePhase::Counting {
                    count: CountView::start(gitlab, project.name, project.ignore_users),
                }
            } else {
                CyclePhase::Done
            },
        }
    }

    /// The cycle at its start.
    pub open spec fn start(gitlab: GitlabView, config: ConfigView) -> CycleView {
        CycleView::turn_to_next(config, Seq::empty(), gitlab)
    }

    /// What every cycle that the engine hands out satisfies: it is done
    /// exactly when every project has its report, and the query it is
    /// busy with has not ended.
    pub open spec fn wf(self) -> bool {
        &&& self.reports.len() <= self.config.project.len()
        &&& match self.phase {
            CyclePhase::Counting { count: query } => {
                &&& self.reports.len() < self.config.project.len()
                &&& query.wf()
                &&& query.outcome() is None
            },
            CyclePhase::Checking { check: query, .. } => {
                &&& self.reports.len() < self.config.project.len()
                &&& query.wf()
                &&& query.outcome() is None
            },
            CyclePhase::Scanning { scan: query, .. } => {
                &&& self.reports.len() < self.config.project.len()
                &&& query.wf()
                &&& query.outcome() is None
            },
            CyclePhase::Done => self.reports.len() == self.config.project.len(),
        }
    }

    /// The request whose answer the cycle waits for; `None` once it is
    /// done.
    pub open spec fn request(self) -> Option<RequestView> {
        match self.phase {
            CyclePhase::Counting { count: query } => query.request(),
            CyclePhase::Checking { check: query, .. } => query.request(),
            CyclePhase::Scanning { scan: query, .. } => query.request(),
            CyclePhase::Done => None,
        }
    }

    /// The title that the cycle has come to; `None` while it is busy.
    pub open spec fn title(self) -> Option<Seq<char>> {
        match self.phase {
            CyclePhase::Done => Some(title_text(self.config, self.reports)),
            _ => None,
        }
    }

    /// The engine after the cycle has taken the answer to its request.
    pub open spec fn engine_after(self, gitlab: GitlabView, reply: ReplyView) -> GitlabView {
        match self.phase {
            CyclePhase::Counting { count: query } => query.engine_after(gitlab, reply),
            CyclePhase::Checking { check: query, .. } => query.engine_after(gitlab, reply),
            CyclePhase::Scanning { scan: query, .. } => query.engine_after(gitlab, reply),
            CyclePhase::Done => gitlab,
        }
    }

    /// The cycle after the answer to its request. The answer goes to the
    /// query at hand. Where that ends the query, its outcome is kept, be
    /// it a failure, and the next query starts: the status after the
    /// count, the scan after the status, and after the scan the count of
    /// the next project.
    pub open spec fn after(self, gitlab: GitlabView, reply: ReplyView) -> CycleView {
        let engine = self.engine_after(gitlab, reply);
        let project = self.config.project[self.reports.len() as int];
        match self.phase {
            CyclePhase::Counting { count: query } => {
                let query = query.after(gitlab, reply);
                match query.outcome() {
                    None => CycleView { phase: CyclePhase::Counting { count: query }, ..self },
                    Some(approvals) => CycleView {
                        phase: CyclePhase::Checking {
                            approvals,
                            check: StatusView::start(engine, project.name, tracked_ref()),
                        },
                        ..self
                    },
                }
            },
            CyclePhase::Checking { approvals, check: query } => {
                let query = query.after(gitlab, reply);
                match query.outcome() {
                    None => CycleView {
                        phase: CyclePhase::Checking { approvals, check: query },
                        ..self
                    },
                    Some(status) => CycleView {
                        phase: CyclePhase::Scanning {
                            approvals,
                            status,
                            scan: ScanView::start(engine, project.name, project.branch_users),
                        },
                        ..self
                    },
                }
            },
            CyclePhase::Scanning { approvals, status, scan: query } => {
                let query = query.after(gitlab, reply);
                match query.outcome() {
                    None => CycleView {
                        phase: CyclePhase::Scanning { approvals, status, scan: query },
                        ..self
                    },
                    Some(merge_requests) => CycleView::turn_to_next(
                        self.config,
                        self.reports.push(ProjectReportView { approvals, status, merge_requests }),
                        engine,
                    ),
                }
            },
            CyclePhase::Done => self,
        }
    }
}

/// A cycle that satisfies `wf` still does after any answer.
pub proof fn cycle_stays_wf(cycle: CycleView, gitlab: GitlabView, reply: ReplyView)
    requires
        cycle.wf(),
    ensures
        cycle.after(gitlab, reply).wf(),
{
    match cycle.phase {
        CyclePhase::Counting { count: query } => count_stays_wf(query, gitlab, reply),
        CyclePhase::Checking { check: query, .. } => status_stays_wf(query, gitlab, reply),
        CyclePhase::Scanning { scan: query, .. } => scan_stays_wf(query, gitlab, reply),
        CyclePhase::Done => {},
    }
}

/// A cycle takes no project away from the engine, and changes no
/// project's number: what one cycle has resolved, the next need not ask
/// for.
pub proof fn cycle_keeps_known_projects(
    cycle: CycleView,
    gitlab: GitlabView,
    reply: ReplyView,
    name: Seq<char>,
)
    requires
        gitlab.projects.contains_key(name),
    ensures
        cycle.engine_after(gitlab, reply).projects.contains_key(name),
        cycle.engine_after(gitlab, reply).projects[name] == gitlab.projects[name],
{
}

/// A cycle has its title exactly when it has no request left to make.
pub proof fn cycle_ends_with_title(cycle: CycleView)
    requires
        cycle.wf(),
    ensures
        cycle.request() is None <==> cycle.title() is Some,
{
    match cycle.phase {
        CyclePhase::Counting { count: query } => count_ends_with_outcome(query),
        CyclePhase::Checking { check: query, .. } => status_ends_with_outcome(query),
        CyclePhase::Scanning { scan: query, .. } => scan_ends_with_outcome(query),
        CyclePhase::Done => {},
    }
}

/// What a cycle is busy with, with the query that it runs.
enum Phase {
    Counting { count: CountQuery },
    Checking { approvals: Result<usize, ApiError>, check: StatusQuery },
    Scanning {
        approvals: Result<usize, ApiError>,
        status: Result<PipelineStatus, ApiError>,
        scan: ScanQuery,
    },
    Done,
}

/// A polling cycle in progress. The caller asks it for the request to
/// make, hands the answer to `advance`, and goes on until there is no
/// request left; then the cycle has its title.
pub struct Cycle<'a> {
    config: &'a Config,
    reports: Vec<ProjectReport>,
    phase: Phase,
}

/// The view of an approval count.
pub open spec fn count_view(approvals: Result<usize, ApiError>) -> Result<nat, ApiError> {
    match approvals {
        Ok(count) => Ok(count as nat),
        Err(error) => Err(error),
    }
}

impl<'a> View for Cycle<'a> {
    type V = CycleView;

    closed spec fn view(&self) -> CycleView {
        CycleView {
            config: self.config@,
            reports: self.reports.deep_view(),
            phase: match self.phase {
                Phase::Counting { count: query } => CyclePhase::Counting { count: query@ },
                Phase::Checking { approvals, check: query } => CyclePhase::Checking {
                    approvals: count_view(approvals),
                    check: query@,
                },
                Phase::Scanning { approvals, status, scan: query } => CyclePhase::Scanning {
                    approvals: count_view(approvals),
                    status,
                    scan: query@,
                },
                Phase::Done => CyclePhase::Done,
            },
        }
    }
}

impl<'a> Cycle<'a> {
    #[verifier::type_invariant]
    spec fn inv(self) -> bool {
        self@.wf()
    }

    /// Turns to the project at index `reports.len()`.
    fn turn_to_next(
        config: &'a Config,
        reports: Vec<ProjectReport>,
        gitlab: &Gitlab,
    ) -> (cycle: Cycle<'a>)
        requires
            reports.len() <= config.project.len(),
        ensures
            cycle@ == CycleView::turn_to_next(config@, reports.deep_view(), gitlab@),
    {
        let at: usize = reports.len();
        if at < config.project.len() {
            let project = &config.project[at];
            let query = gitlab.merge_request_count(project.name.as_str(), &project.ignore_users);
            Cycle { config, reports, phase: Phase::Counting { count: query } }
        } else {
            Cycle { config, reports, phase: Phase::Done }
        }
    }

    /// Starts a cycle over the projects of `config`.
    pub fn start(gitlab: &Gitlab, config: &'a Config) -> (cycle: Cycle<'a>)
        ensures
            cycle@ == CycleView::start(gitlab@, config@),
            cycle@.wf(),
    {
        let reports: Vec<ProjectReport> = Vec::new();
        assert(reports.deep_view() =~= Seq::empty());
        Cycle::turn_to_next(config, reports, gitlab)
    }

    /// The request to make next; `None` once the cycle is done.
    pub fn request(&self) -> (request: Option<Request>)
        ensures
            request.deep_view() == self@.request(),
    {
        match &self.phase {
            Phase::Counting { count: query } => query.request(),
            Phase::Checking { check: query, .. } => query.request(),
            Phase::Scanning { scan: query, .. } => query.request(),
            Phase::Done => None,
        }
    }

    /// The title that the cycle has come to; `None` while it is busy.
    pub fn title(&self) -> (title: Option<String>)
        ensures
            match title {
                Some(text) => self@.title() == Some(text@),
                None => self@.title() is None,
            },
    {
        match &self.phase {
            Phase::Done => Some(make_title(self.config, &self.reports)),
            _ => None,
        }
    }

    /// Takes the answer to the request that `request` named, and moves on.
    pub fn advance(self, gitlab: &mut Gitlab, reply: Reply) -> (next: Cycle<'a>)
        ensures
            next@ == self@.after(old(gitlab)@, reply_view(reply)),
            final(gitlab)@ == self@.engine_after(old(gitlab)@, reply_view(reply)),
            next@.wf(),
    {
        proof {
            use_type_invariant(&self);
        }
        let Cycle { config, reports, phase } = self;
        match phase {
            Phase::Counting { count: query } => {
                let query = query.advance(gitlab, reply);
                match query.outcome() {
                    None => Cycle { config, reports, phase: Phase::Counting { count: query } },
                    Some(approvals) => {
                        let project = &config.project[reports.len()];
                        let query = gitlab.pipeline_status(project.name.as_str(), "master");
                        Cycle {
                            config,
                            reports,
                            phase: Phase::Checking { approvals, check: query },
                        }
                    },
                }
            },
            Phase::Checking { approvals, check: query } => {
                let query = query.advance(gitlab, reply);
                match query.outcome() {
                    None => Cycle {
                        config,
                        reports,
                        phase: Phase::Checking { approvals, check: query },
                    },
                    Some(status) => {
                        let project = &config.project[reports.len()];
                        let query = gitlab.user_merge_requests(
                            project.name.as_str(),
                            &project.branch_users,
                        );
                        Cycle {
                            config,
                            reports,
                            phase: Phase::Scanning { approvals, status, scan: query },
                        }
                    },
                }
            },
            Phase::Scanning { approvals, status, scan: query } => {
                let query = query.advance(gitlab, reply);
                match query.outcome() {
                    None => Cycle {
                        config,
                        reports,
                        phase: Phase::Scanning { approvals, status, scan: query },
                    },
                    Some(merge_requests) => {
                        let mut reports = reports;
                        let ghost before = reports.deep_view();
                        let report = ProjectReport { approvals, status, merge_requests };
                        reports.push(report);
                        assert(reports.deep_view() =~= before.push(report@));
                        Cycle::turn_to_next(config, reports, gitlab)
                    },
                }
            },
            Phase::Done => Cycle { config, reports, phase: Phase::Done },
        }
    }
}

} // verus!
