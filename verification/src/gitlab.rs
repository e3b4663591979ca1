//! The engine: where the host lives, which projects it has already
//! resolved, and the three queries it can start.

use vstd::prelude::*;
use vstd::string::*;
use crate::api::{Reply, ReplyView, Request, RequestView, Response, ResponseView, reply_view};
use crate::approvals::{CountQuery, CountView};
use crate::model::ApiError;
use crate::scan::{ScanQuery, ScanView};
use crate::status::{StatusQuery, StatusView};

verus! {

/// A project whose number the host has told.
struct KnownProject {
    name: String,
    id: u32,
}

/// The engine's lasting state. It owns the cache of project numbers; the
/// queries it starts carry everything else.
pub struct Gitlab {
    host: String,
    token: String,
    projects: Vec<KnownProject>,
}

/// The view of a `Gitlab`: its texts as sequences of characters, its cache
/// as a map.
pub struct GitlabView {
    /// The root of the host's URLs.
    pub host: Seq<char>,
    /// The private token that authenticates every request.
    pub token: Seq<char>,
    /// The number of each project resolved so far, by name.
    pub projects: Map<Seq<char>, u32>,
}

/// The cache that a list of entries stands for: each name with its number.
spec fn known(entries: Seq<KnownProject>) -> Map<Seq<char>, u32>
    decreases entries.len(),
{
    if entries.len() == 0 {
        Map::empty()
    } else {
        known(entries.drop_last()).insert(entries.last().name@, entries.last().id)
    }
}

impl GitlabView {
    /// The engine after it has learnt that `name` has the number `id`. A
    /// name that is already known keeps the number it has.
    pub open spec fn remember(self, name: Seq<char>, id: u32) -> GitlabView {
        if self.projects.contains_key(name) {
            self
        } else {
            GitlabView { projects: self.projects.insert(name, id), ..self }
        }
    }

    /// What the answer to a request for the project `name` makes of a
    /// query: the project's number, or the failure that ends the query.
    /// Only a decoded project record is a success; an answer of another
    /// shape counts as undecodable.
    pub open spec fn resolution(self, name: Seq<char>, reply: ReplyView) -> Result<u32, ApiError> {
        match reply {
            Ok(ResponseView::Project { id }) => Ok(self.remember(name, id).projects[name]),
            Ok(_) => Err(ApiError::Decode),
            Err(error) => Err(error),
        }
    }

    /// The engine after the answer to a request for the project `name`.
    pub open spec fn resolved(self, name: Seq<char>, reply: ReplyView) -> GitlabView {
        match reply {
            Ok(ResponseView::Project { id }) => self.remember(name, id),
            _ => self,
        }
    }

    /// The engine after a run of answers to requests for project numbers,
    /// each given with the name that was asked for.
    pub open spec fn resolved_all(self, answers: Seq<(Seq<char>, ReplyView)>) -> GitlabView
        decreases answers.len(),
    {
        if answers.len() == 0 {
            self
        } else {
            self.resolved_all(answers.drop_last()).resolved(answers.last().0, answers.last().1)
        }
    }
}

/// A project that the engine knows stays known, under the same number,
/// whatever answers come later.
pub proof fn known_project_stays(
    gitlab: GitlabView,
    name: Seq<char>,
    answers: Seq<(Seq<char>, ReplyView)>,
)
    requires
        gitlab.projects.contains_key(name),
    ensures
        gitlab.resolved_all(answers).projects.contains_key(name),
        gitlab.resolved_all(answers).projects[name] == gitlab.projects[name],
    decreases answers.len(),
{
    if answers.len() > 0 {
        known_project_stays(gitlab, name, answers.drop_last());
    }
}

/// A project's number is asked for once: after the host has told it, and
/// whatever answers come later, each query for that project starts with
/// the request for its list.
pub proof fn resolved_once(
    gitlab: GitlabView,
    name: Seq<char>,
    id: u32,
    answers: Seq<(Seq<char>, ReplyView)>,
    names: Seq<Seq<char>>,
    ref_name: Seq<char>,
)
    ensures
        ({
            let later = gitlab.resolved(name, Ok(ResponseView::Project { id })).resolved_all(
                answers,
            );
            let project = later.projects[name];
            &&& later.projects.contains_key(name)
            &&& !gitlab.projects.contains_key(name) ==> project == id
            &&& CountView::start(later, name, names).request() == Some(
                RequestView::MergeRequests { project },
            )
            &&& StatusView::start(later, name, ref_name).request() == Some(
                RequestView::Pipelines { project, ref_name },
            )
            &&& ScanView::start(later, name, names).request() == Some(
                RequestView::MergeRequests { project },
            )
        }),
{
    known_project_stays(gitlab.resolved(name, Ok(ResponseView::Project { id })), name, answers);
}

impl View for Gitlab {
    type V = GitlabView;

    closed spec fn view(&self) -> GitlabView {
        GitlabView { host: self.host@, token: self.token@, projects: known(self.projects@) }
    }
}

impl Gitlab {
    /// An engine for the host at `host`, with nothing resolved yet.
    pub fn new(host: &str, token: &str) -> (gitlab: Gitlab)
        ensures
            gitlab@.host == host@,
            gitlab@.token == token@,
            gitlab@.projects == Map::<Seq<char>, u32>::empty(),
    {
        Gitlab { host: host.to_owned(), token: token.to_owned(), projects: Vec::new() }
    }

    /// The private token to send with every request.
    pub fn token(&self) -> (token: &str)
        ensures
            token@ == self@.token,
    {
        self.token.as_str()
    }

    /// The full URL of a request: the host's root, then the request's path.
    pub fn url(&self, request: &Request) -> (url: String)
        ensures
            url@ == self@.host + request@.path(),
    {
        let mut url = self.host.clone();
        let path = request.path();
        url.append(path.as_str());
        url
    }

    /// The number of the project `name`, if the engine has resolved it.
    pub fn project_id(&self, name: &str) -> (id: Option<u32>)
        ensures
            id == if self@.projects.contains_key(name@) {
                Some(self@.projects[name@])
            } else {
                None
            },
    {
        let wanted = name.to_owned();
        let mut left: usize = self.projects.len();
        assert(self.projects@.take(left as int) == self.projects@);
        while left > 0
            invariant
                left <= self.projects.len(),
                wanted@ == name@,
                known(self.projects@).contains_key(name@) == known(
                    self.projects@.take(left as int),
                ).contains_key(name@),
                known(self.projects@).contains_key(name@) ==> known(self.projects@)[name@]
                    == known(self.projects@.take(left as int))[name@],
            decreases left,
        {
            let ghost prefix = self.projects@.take(left as int);
            assert(prefix.drop_last() == self.projects@.take(left - 1));
            assert(prefix.last() == self.projects@[left - 1]);
            left -= 1;
            if self.projects[left].name == wanted {
                return Some(self.projects[left].id);
            }
        }
        None
    }

    /// Starts to count the open merge requests of the project `name` that
    /// wait for the operator's approval and whose author is not one of
    /// `ignore_authors`.
    pub fn merge_request_count(
        &self,
        name: &str,
        ignore_authors: &Vec<String>,
    ) -> (query: CountQuery)
        ensures
            query@ == CountView::start(self@, name@, ignore_authors.deep_view()),
            query@.wf(),
    {
        CountQuery::start(self, name, ignore_authors)
    }

    /// Starts to find the status of the most recent pipeline of `ref_name`
    /// in the project `name` that no schedule started.
    pub fn pipeline_status(&self, name: &str, ref_name: &str) -> (query: StatusQuery)
        ensures
            query@ == StatusView::start(self@, name@, ref_name@),
            query@.wf(),
    {
        StatusQuery::start(self, name, ref_name)
    }

    /// Starts to look for the open merge requests of the project `name`
    /// whose branch tip one of `usernames` produced and that have a failed
    /// pipeline.
    pub fn user_merge_requests(&self, name: &str, usernames: &Vec<String>) -> (query: ScanQuery)
        ensures
            query@ == ScanView::start(self@, name@, usernames.deep_view()),
            query@.wf(),
    {
        ScanQuery::start(self, name, usernames)
    }

    /// Records that `name` has the number `id`, unless the name is known
    /// already, and returns the number that the name now has.
    fn remember(&mut self, name: &str, id: u32) -> (kept: u32)
        ensures
            final(self)@ == old(self)@.remember(name@, id),
            kept == final(self)@.projects[name@],
    {
        match self.project_id(name) {
            Some(existing) => existing,
            None => {
                self.projects.push(KnownProject { name: name.to_owned(), id });
                assert(self.projects@.drop_last() == old(self).projects@);
                id
            },
        }
    }

    /// Takes the answer to a request for the project `name`: a decoded
    /// project record is remembered, and its number handed out; anything
    /// else is the failure that ends the query.
    pub fn resolved(&mut self, name: &str, reply: Reply) -> (project: Result<u32, ApiError>)
        ensures
            final(self)@ == old(self)@.resolved(name@, reply_view(reply)),
            project == old(self)@.resolution(name@, reply_view(reply)),
    {
        match reply {
            Ok(Response::Project { id }) => Ok(self.remember(name, id)),
            Ok(_) => Err(ApiError::Decode),
            Err(error) => Err(error),
        }
    }
}

} // verus!
