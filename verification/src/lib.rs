//! The status engine of a menu-bar monitor for a GitLab host.
//!
//! The engine reduces what the host tells about each watched project to
//! one short text: how many merge requests wait for the operator's
//! approval, how the latest pipeline of the tracked branch fares, and
//! which of the watched users' merge requests have a failed pipeline.
//!
//! It performs no I/O. `Gitlab` starts a query; the query names the
//! request to make next, takes the answer, and in the end holds the
//! outcome. The caller sends the requests and decodes the answers.

pub mod api;
pub mod approvals;
pub mod config;
pub mod cycle;
pub mod encode;
pub mod gitlab;
pub mod model;
pub mod scan;
pub mod status;
pub mod text;
pub mod title;

pub use crate::api::{Reply, Request, Response};
pub use crate::approvals::CountQuery;
pub use crate::config::{Config, Project};
pub use crate::cycle::Cycle;
pub use crate::gitlab::Gitlab;
pub use crate::model::{ApiError, MergeRequestStatus, PipelineStatus};
pub use crate::scan::ScanQuery;
pub use crate::status::StatusQuery;
pub use crate::title::{make_title, status_icon, ProjectReport};
