//! What the operator configures: the host, and the projects to watch.

use vstd::prelude::*;

verus! {

/// One watched project.
#[derive(Clone, Debug, PartialEq, Eq)]
pub struct Project {
    /// The text that introduces the project in the menu bar.
    pub title: String,
    /// The path-qualified name of the project on the host.
    pub name: String,
    /// The authors whose merge requests are not counted.
    pub ignore_users: Vec<String>,
    /// The users whose branches are watched for failed pipelines.
    pub branch_users: Vec<String>,
}

/// The view of a `Project`: its texts as sequences of characters.
pub struct ProjectView {
    pub title: Seq<char>,
    pub name: Seq<char>,
    pub ignore_users: Seq<Seq<char>>,
    pub branch_users: Seq<Seq<char>>,
}

impl View for Project {
    type V = ProjectView;

    open spec fn view(&self) -> ProjectView {
        ProjectView {
            title: self.title@,
            name: self.name@,
            ignore_users: self.ignore_users.deep_view(),
            branch_users: self.branch_users.deep_view(),
        }
    }
}

impl DeepView for Project {
    type V = ProjectView;

    open spec fn deep_view(&self) -> ProjectView {
        self@
    }
}

/// The whole configuration.
#[derive(Clone, Debug, PartialEq, Eq)]
pub struct Config {
    /// The text shown when no project has anything to report.
    pub title: String,
    /// The root of the host's URLs.
    pub gitlab_url: String,
    /// The private token that authenticates every request.
    pub token: String,
    /// The watched projects, in the order in which they are shown.
    pub project: Vec<Project>,
}

/// The view of a `Config`: its texts as sequences of characters.
pub struct ConfigView {
    pub title: Seq<char>,
    pub gitlab_url: Seq<char>,
    pub token: Seq<char>,
    pub project: Seq<ProjectView>,
}

impl View for Config {
    type V = ConfigView;

    open spec fn view(&self) -> ConfigView {
        ConfigView {
            title: self.title@,
            gitlab_url: self.gitlab_url@,
            token: self.token@,
            project: self.project.deep_view(),
        }
    }
}

impl DeepView for Config {
    type V = ConfigView;

    open spec fn deep_view(&self) -> ConfigView {
        self@
    }
}

} // verus!
