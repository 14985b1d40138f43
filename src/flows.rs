//! The multi-step workflows. Each is a state machine: `first` gives the
//! opening action, and `step` takes the outcome of the last action and gives
//! the next one. Whoever runs a workflow performs each action against the
//! identity store or the upstream API and hands back what came of it, until
//! the action is `Finish`. Local identifiers are always resolved before the
//! first upstream call that changes anything.
use vstd::prelude::*;
use crate::error::{Error, GMResult};
use crate::requests::{
    AddKeyGitlab, AddUserToGroupGitlab, AddUserToProjectGitlab, CreateGroup, CreateGroupGitlab,
    CreateRepoGitlab, CreateUser, CreateUserGitLab, CreateWebhookGitlab, Uuid, id_path,
    user_name_of, Visibility, MAINTAINER,
};
use crate::store::{
    IdentityStore, KeyView, Space, StoreKey, Change, apply_changes, forget_model, insert_model,
    lemma_lookup_after_insert, lookup_model, removes,
};
use crate::encoding::{decimal, decimal_chars, userinfo_bytes, userinfo_encode};
use crate::token::{calc_token, webhook_token};
use vstd::utf8::encode_utf8;

verus! {

#[derive(Debug, Clone, Copy, PartialEq, Eq, Structural)]
pub enum Method {
    Get,
    Post,
    Delete,
}

/// The JSON body of an upstream call.
#[derive(Debug)]
pub enum Body {
    Empty,
    CreateUser(CreateUserGitLab),
    AddKey(AddKeyGitlab),
    CreateGroup(CreateGroupGitlab),
    AddUserToGroup(AddUserToGroupGitlab),
    CreateRepo(CreateRepoGitlab),
    CreateWebhook(CreateWebhookGitlab),
    AddUserToProject(AddUserToProjectGitlab),
}

/// One call of the upstream API; `sudo` names the user to act as.
#[derive(Debug)]
pub struct UpstreamCall {
    pub method: Method,
    pub path: String,
    pub body: Body,
    pub sudo: Option<String>,
}

/// One operation on the identity store.
#[derive(Debug)]
pub enum StoreOp {
    Lookup(StoreKey),
    Insert(StoreKey, u64),
    Forget(Space, u64),
}

/// What a finished workflow answers the backend.
#[derive(Debug)]
pub enum Answer {
    /// Success with nothing to report.
    Done,
    /// A resource was created.
    Created,
    /// Success with a JSON body.
    Json(String),
    /// The request was refused; the text says why.
    BadRequest(&'static str),
}

#[derive(Debug)]
pub enum Action {
    Store(StoreOp),
    Call(UpstreamCall),
    Finish(GMResult<Answer>),
}

/// The fields of an upstream answer that the workflows read.
#[derive(Debug)]
pub struct Reply {
    /// The `id` of a JSON object.
    pub id: Option<u64>,
    /// The `ssh_url_to_repo` of a JSON object.
    pub ssh_url: Option<String>,
    /// The `id` of every element of a JSON array.
    pub ids: Option<Vec<u64>>,
}

/// What came of an action.
#[derive(Debug)]
pub enum Event {
    /// A lookup found this id.
    Found(u64),
    /// A store write succeeded.
    Stored,
    /// The upstream call answered with a 2xx status.
    Replied(Reply),
    /// The action failed.
    Failed(Error),
}

pub open spec fn unexpected() -> Error {
    Error::SomeError("unexpected event")
}

pub open spec fn schema_changed() -> Error {
    Error::SomeError("Gitlab schema changed")
}

pub open spec fn already_finished() -> Error {
    Error::SomeError("workflow finished")
}

/// The error a workflow ends with when an event is not the success it waits for.
pub open spec fn failure_of(e: Event) -> Error {
    match e {
        Event::Failed(x) => x,
        _ => unexpected(),
    }
}

fn failure(e: Event) -> (r: Error)
    ensures
        r == failure_of(e),
{
    match e {
        Event::Failed(x) => x,
        _ => Error::new("unexpected event"),
    }
}

pub open spec fn finishes_with(a: Action, e: Error) -> bool {
    a == Action::Finish(Err(e))
}

pub open spec fn is_lookup(a: Action, k: KeyView) -> bool {
    a matches Action::Store(StoreOp::Lookup(key)) && key@ == k
}

pub open spec fn is_insert(a: Action, k: KeyView, id: u64) -> bool {
    a matches Action::Store(StoreOp::Insert(key, v)) && key@ == k && v == id
}

pub open spec fn is_forget(a: Action, space: Space, id: u64) -> bool {
    a == Action::Store(StoreOp::Forget(space, id))
}

pub open spec fn is_call(a: Action, m: Method, path: Seq<char>) -> bool {
    a matches Action::Call(c) && c.method == m && c.path@ == path && c.sudo is None
}

pub open spec fn call_body(a: Action) -> Body
    recommends
        a is Call,
{
    a->Call_0.body
}

/// What the identity store answers an operation with.
pub open spec fn store_outcome(m: Map<KeyView, u64>, op: StoreOp) -> Event {
    match op {
        StoreOp::Lookup(k) => match lookup_model(m, k@) {
            Ok(v) => Event::Found(v),
            Err(e) => Event::Failed(e),
        },
        StoreOp::Insert(k, v) => if m.contains_key(k@) {
            Event::Failed(Error::AlreadyExists)
        } else {
            Event::Stored
        },
        StoreOp::Forget(_, _) => Event::Stored,
    }
}

pub open spec fn store_effect(m: Map<KeyView, u64>, op: StoreOp) -> Map<KeyView, u64> {
    match op {
        StoreOp::Lookup(_) => m,
        StoreOp::Insert(k, v) => insert_model(m, k@, v),
        StoreOp::Forget(s, v) => forget_model(m, s, v),
    }
}

/// Performs a store operation on an identity store held in memory.
pub fn perform_store_op(store: &mut IdentityStore, op: StoreOp) -> (r: Event)
    requires
        old(store).wf(),
    ensures
        final(store).wf(),
        r == store_outcome(old(store)@, op),
        final(store)@ == store_effect(old(store)@, op),
{
    match op {
        StoreOp::Lookup(k) => match store.lookup(&k) {
            Ok(v) => Event::Found(v),
            Err(e) => Event::Failed(e),
        },
        StoreOp::Insert(k, v) => match store.insert(k, v) {
            Ok(()) => Event::Stored,
            Err(e) => Event::Failed(e),
        },
        StoreOp::Forget(s, v) => {
            store.forget(s, v);
            Event::Stored
        },
    }
}

fn call(method: Method, path: String, body: Body) -> (r: Action)
    ensures
        r == Action::Call(UpstreamCall { method, path, body, sudo: None }),
{
    Action::Call(UpstreamCall { method, path, body, sudo: None })
}

// ---------------------------------------------------------------------------
// Repository creation
// ---------------------------------------------------------------------------

/// A repository to create, as the backend sends it.
pub struct CreateRepo {
    pub owners: Vec<String>,
    pub repo_name: String,
    /// When the owners' access ends.
    pub ddl: String,
    /// Opaque data handed back with every webhook call of the repository.
    pub additional_data: Option<String>,
}

#[derive(Debug, Clone, Copy, PartialEq, Eq, Structural)]
pub enum RepoStage {
    CheckExisting,
    FindAssignment,
    FindOwner,
    CreateProject,
    Remember,
    Hook,
    Protect,
    AddMember(usize),
    Done,
}

pub struct CreateRepoFlow {
    pub course: Uuid,
    pub assignment: Uuid,
    pub request: CreateRepo,
    /// The token salt.
    pub salt: String,
    /// The public base URL of this middleware, without a trailing slash.
    pub base: String,
    pub stage: RepoStage,
    pub assignment_id: u64,
    pub owner_ids: Vec<u64>,
    pub repo_id: u64,
    pub ssh_url: String,
}

/// The path webhook calls for a repository arrive at: the course and
/// assignment as the backend wrote them. The token is derived from it.
pub open spec fn hook_path(course: Seq<char>, assignment: Seq<char>) -> Seq<char> {
    "/hooks/"@ + course + "/"@ + assignment
}

/// The query of the webhook URL: the encoded extra data, if any.
pub open spec fn hook_query(data: Option<Seq<char>>) -> Seq<char> {
    match data {
        None => Seq::<char>::empty(),
        Some(d) => "?data="@ + hook_data(d),
    }
}

/// The text whose UTF-8 bytes percent-encode extra data for a URL.
pub open spec fn hook_data(d: Seq<char>) -> Seq<char> {
    choose|t: Seq<char>| encode_utf8(t) == userinfo_bytes(encode_utf8(d))
}

/// What the backend is told of a new repository.
pub open spec fn repo_answer(ssh_url: Seq<char>) -> Seq<char> {
    "{\"ssh_url_to_repo\":\""@ + ssh_url + "\"}"@
}

impl CreateRepoFlow {
    pub open spec fn repo_key(&self) -> KeyView {
        KeyView::Repo(self.course.parsed, self.assignment.parsed, self.request.repo_name@)
    }

    pub open spec fn data_view(&self) -> Option<Seq<char>> {
        match self.request.additional_data {
            Some(d) => Some(d@),
            None => None,
        }
    }

    pub open spec fn hook_path(&self) -> Seq<char> {
        hook_path(self.course.original@, self.assignment.original@)
    }

    /// The call that creates the project in the assignment's group.
    pub open spec fn is_project_call(&self, a: Action) -> bool {
        &&& is_call(a, Method::Post, "projects/"@)
        &&& call_body(a) matches Body::CreateRepo(b)
        &&& b.name@ == self.request.repo_name@
        &&& b.namespace_id == self.assignment_id
        &&& b.visibility == Visibility::Private
    }

    /// The call that registers the webhook: its URL is this middleware's
    /// base, the hook path and the data query; its token is that of the
    /// path alone, as the request path is all a webhook call is checked by.
    pub open spec fn is_hook_call(&self, a: Action) -> bool {
        &&& is_call(a, Method::Post, id_path("projects/"@, self.repo_id, "/hooks"@))
        &&& call_body(a) matches Body::CreateWebhook(b)
        &&& b.project_id == self.repo_id
        &&& b.url@ == self.base@ + self.hook_path() + hook_query(self.data_view())
        &&& b.push_events
        &&& b.token@ == webhook_token(self.hook_path(), self.salt@)
    }

    pub open spec fn is_protect_call(&self, a: Action) -> bool {
        &&& is_call(a, Method::Post, id_path("projects/"@, self.repo_id, "/protected_branches?name=*"@))
        &&& call_body(a) is Empty
    }

    /// The call that makes the `k`-th owner a maintainer until the deadline.
    pub open spec fn is_member_call(&self, a: Action, k: int) -> bool {
        &&& is_call(a, Method::Post, id_path("projects/"@, self.repo_id, "/members"@))
        &&& call_body(a) matches Body::AddUserToProject(b)
        &&& b.project_id == self.repo_id
        &&& b.user_id == self.owner_ids@[k]
        &&& b.access_level == MAINTAINER
        &&& b.expires_at@ == self.request.ddl@
    }

    pub open spec fn is_answer(&self, a: Action) -> bool {
        a matches Action::Finish(Ok(Answer::Json(j))) && j@ == repo_answer(self.ssh_url@)
    }

    pub open spec fn wf(&self) -> bool {
        &&& self.stage is FindOwner ==> self.owner_ids@.len() < self.request.owners@.len()
        &&& (self.stage is CreateProject || self.stage is Remember || self.stage is Hook
            || self.stage is Protect || self.stage is AddMember) ==> self.owner_ids@.len()
            == self.request.owners@.len()
        &&& self.stage matches RepoStage::AddMember(k) ==> k < self.owner_ids@.len()
    }

    pub fn new(course: Uuid, assignment: Uuid, request: CreateRepo, salt: String, base: String) -> (r: Self)
        ensures
            r.wf(),
            r.course == course,
            r.assignment == assignment,
            r.request == request,
            r.salt == salt,
            r.base == base,
            r.stage == RepoStage::CheckExisting,
            r.owner_ids@.len() == 0,
    {
        CreateRepoFlow {
            course,
            assignment,
            request,
            salt,
            base,
            stage: RepoStage::CheckExisting,
            assignment_id: 0,
            owner_ids: Vec::new(),
            repo_id: 0,
            ssh_url: String::new(),
        }
    }

    /// The workflow opens by looking for an existing mapping of the
    /// repository, before anything else.
    pub fn first(&self) -> (r: Action)
        ensures
            is_lookup(r, self.repo_key()),
    {
        Action::Store(
            StoreOp::Lookup(
                StoreKey::Repo(self.course.parsed, self.assignment.parsed, self.request.repo_name.clone()),
            ),
        )
    }

    fn owner_lookup(&self) -> (r: Action)
        requires
            self.owner_ids@.len() < self.request.owners@.len(),
        ensures
            is_lookup(r, KeyView::User(self.request.owners@[self.owner_ids@.len() as int]@)),
    {
        Action::Store(StoreOp::Lookup(StoreKey::User(self.request.owners[self.owner_ids.len()].clone())))
    }

    fn create_project(&self) -> (r: Action)
        ensures
            self.is_project_call(r),
    {
        call(
            Method::Post,
            String::from_str("projects/"),
            Body::CreateRepo(CreateRepoGitlab::new(self.request.repo_name.clone(), self.assignment_id)),
        )
    }

    fn add_member(&self, k: usize) -> (r: Action)
        requires
            k < self.owner_ids@.len(),
        ensures
            self.is_member_call(r, k as int),
    {
        let m = AddUserToProjectGitlab::new(self.repo_id, self.owner_ids[k], self.request.ddl.clone());
        let p = m.path();
        call(Method::Post, p, Body::AddUserToProject(m))
    }

    fn hook_url_path(&self) -> (r: String)
        ensures
            r@ == self.hook_path(),
    {
        let mut p = String::from_str("/hooks/");
        p.append(self.course.original.as_str());
        p.append("/");
        p.append(self.assignment.original.as_str());
        p
    }

    fn hook_url_query(&self) -> (r: String)
        ensures
            r@ == hook_query(self.data_view()),
    {
        match &self.request.additional_data {
            Some(d) => {
                let enc = userinfo_encode(d.as_str());
                let mut q = String::from_str("?data=");
                q.append(enc.as_str());
                proof {
                    let t = hook_data(d@);
                    assert(encode_utf8(t) == userinfo_bytes(encode_utf8(d@)));
                    vstd::utf8::encode_utf8_decode_utf8(enc@);
                    vstd::utf8::encode_utf8_decode_utf8(t);
                    assert(enc@ == t);
                }
                q
            },
            None => String::new(),
        }
    }

    fn register_hook(&self) -> (r: Action)
        ensures
            self.is_hook_call(r),
    {
        let path = self.hook_url_path();
        let token = calc_token(path.as_str(), self.salt.as_str());
        let mut url = self.base.clone();
        url.append(path.as_str());
        url.append(self.hook_url_query().as_str());
        let hook = CreateWebhookGitlab::new(self.repo_id, url, token);
        let p = hook.path();
        call(Method::Post, p, Body::CreateWebhook(hook))
    }

    fn protect_branches(&self) -> (r: Action)
        ensures
            self.is_protect_call(r),
    {
        let mut p = String::from_str("projects/");
        p.append(decimal(self.repo_id).as_str());
        p.append("/protected_branches?name=*");
        call(Method::Post, p, Body::Empty)
    }

    fn answer(&self) -> (r: Action)
        ensures
            self.is_answer(r),
    {
        let mut j = String::from_str("{\"ssh_url_to_repo\":\"");
        j.append(self.ssh_url.as_str());
        j.append("\"}");
        Action::Finish(Ok(Answer::Json(j)))
    }

    /// Advances the workflow by the outcome of its last action.
    ///
    /// A mapping found by the opening lookup ends it with `AlreadyExists`
    /// before any upstream call. The assignment and then every owner are
    /// resolved before the project is created; a missing one ends the
    /// workflow. After the project is created its mapping is stored, the
    /// webhook registered, all branches protected, and each owner made a
    /// maintainer, one call each; the first failure ends the workflow and
    /// nothing done before it is undone.
    pub fn step(&mut self, event: Event) -> (r: Action)
        requires
            old(self).wf(),
        ensures
            final(self).wf(),
            final(self).course == old(self).course,
            final(self).assignment == old(self).assignment,
            final(self).request == old(self).request,
            final(self).salt == old(self).salt,
            final(self).base == old(self).base,
            // a finished workflow stays finished and calls nothing
            old(self).stage is Done ==> finishes_with(r, already_finished()) && final(self).stage is Done,
            // no upstream call before the assignment and every owner are resolved
            r is Call ==> final(self).owner_ids@.len() == final(self).request.owners@.len()
                && !(old(self).stage is CheckExisting) && !(old(self).stage is FindAssignment
                && !(event is Found)),
            r is Finish ==> final(self).stage is Done,
            old(self).stage is CheckExisting ==> if event is Found {
                finishes_with(r, Error::AlreadyExists)
            } else {
                is_lookup(r, KeyView::Group(old(self).assignment.parsed))
                    && final(self).stage is FindAssignment
            },
            old(self).stage is FindAssignment ==> match event {
                Event::Found(aid) => final(self).assignment_id == aid && final(self).owner_ids@.len() == 0
                    && if old(self).request.owners@.len() == 0 {
                        final(self).stage is CreateProject && is_call(r, Method::Post, "projects/"@)
                    } else {
                        final(self).stage is FindOwner
                            && is_lookup(r, KeyView::User(old(self).request.owners@[0]@))
                    },
                _ => finishes_with(r, failure_of(event)),
            },
            old(self).stage is FindOwner ==> match event {
                Event::Found(uid) => final(self).assignment_id == old(self).assignment_id
                    && final(self).owner_ids@ == old(self).owner_ids@.push(uid)
                    && if final(self).owner_ids@.len() == old(self).request.owners@.len() {
                        final(self).stage is CreateProject && is_call(r, Method::Post, "projects/"@)
                    } else {
                        final(self).stage is FindOwner && is_lookup(
                            r,
                            KeyView::User(old(self).request.owners@[final(self).owner_ids@.len() as int]@),
                        )
                    },
                _ => finishes_with(r, failure_of(event)),
            },
            final(self).stage is CreateProject ==> final(self).is_project_call(r),
            old(self).stage is CreateProject ==> match event {
                Event::Replied(rep) => if rep.id is Some && rep.ssh_url is Some {
                    final(self).stage is Remember && final(self).repo_id == rep.id->0
                        && final(self).ssh_url == rep.ssh_url->0 && final(self).owner_ids
                        == old(self).owner_ids && is_insert(r, old(self).repo_key(), rep.id->0)
                } else {
                    finishes_with(r, schema_changed())
                },
                _ => finishes_with(r, failure_of(event)),
            },
            (old(self).stage is Remember || old(self).stage is Hook || old(self).stage is Protect
                || old(self).stage is AddMember) ==> final(self).repo_id == old(self).repo_id
                && final(self).ssh_url == old(self).ssh_url && final(self).owner_ids == old(self).owner_ids,
            old(self).stage is Remember ==> if event is Stored {
                final(self).stage is Hook && old(self).is_hook_call(r)
            } else {
                finishes_with(r, failure_of(event))
            },
            old(self).stage is Hook ==> if event is Replied {
                final(self).stage is Protect && old(self).is_protect_call(r)
            } else {
                finishes_with(r, failure_of(event))
            },
            old(self).stage is Protect ==> if event is Replied {
                if old(self).owner_ids@.len() == 0 {
                    old(self).is_answer(r)
                } else {
                    final(self).stage == RepoStage::AddMember(0) && old(self).is_member_call(r, 0)
                }
            } else {
                finishes_with(r, failure_of(event))
            },
            old(self).stage matches RepoStage::AddMember(k) ==> if event is Replied {
                if k + 1 == old(self).owner_ids@.len() {
                    old(self).is_answer(r)
                } else {
                    final(self).stage == RepoStage::AddMember((k + 1) as usize)
                        && old(self).is_member_call(r, k + 1)
                }
            } else {
                finishes_with(r, failure_of(event))
            },
    {
        match self.stage {
            RepoStage::Done => Action::Finish(Err(Error::new("workflow finished"))),
            RepoStage::CheckExisting => {
                if let Event::Found(_) = event {
                    self.stage = RepoStage::Done;
                    Action::Finish(Err(Error::AlreadyExists))
                } else {
                    self.stage = RepoStage::FindAssignment;
                    Action::Store(StoreOp::Lookup(StoreKey::Group(self.assignment.parsed)))
                }
            },
            RepoStage::FindAssignment => match event {
                Event::Found(aid) => {
                    self.assignment_id = aid;
                    self.owner_ids = Vec::new();
                    if self.request.owners.len() == 0 {
                        self.stage = RepoStage::CreateProject;
                        self.create_project()
                    } else {
                        self.stage = RepoStage::FindOwner;
                        self.owner_lookup()
                    }
                },
                other => {
                    self.stage = RepoStage::Done;
                    Action::Finish(Err(failure(other)))
                },
            },
            RepoStage::FindOwner => match event {
                Event::Found(uid) => {
                    self.owner_ids.push(uid);
                    if self.owner_ids.len() >= self.request.owners.len() {
                        self.stage = RepoStage::CreateProject;
                        self.create_project()
                    } else {
                        self.owner_lookup()
                    }
                },
                other => {
                    self.stage = RepoStage::Done;
                    Action::Finish(Err(failure(other)))
                },
            },
            RepoStage::CreateProject => match event {
                Event::Replied(rep) => match (rep.id, rep.ssh_url) {
                    (Some(id), Some(url)) => {
                        self.repo_id = id;
                        self.ssh_url = url;
                        self.stage = RepoStage::Remember;
                        Action::Store(
                            StoreOp::Insert(
                                StoreKey::Repo(
                                    self.course.parsed,
                                    self.assignment.parsed,
                                    self.request.repo_name.clone(),
                                ),
                                id,
                            ),
                        )
                    },
                    _ => {
                        self.stage = RepoStage::Done;
                        Action::Finish(Err(Error::new("Gitlab schema changed")))
                    },
                },
                other => {
                    self.stage = RepoStage::Done;
                    Action::Finish(Err(failure(other)))
                },
            },
            RepoStage::Remember => match event {
                Event::Stored => {
                    self.stage = RepoStage::Hook;
                    self.register_hook()
                },
                other => {
                    self.stage = RepoStage::Done;
                    Action::Finish(Err(failure(other)))
                },
            },
            RepoStage::Hook => match event {
                Event::Replied(_) => {
                    self.stage = RepoStage::Protect;
                    self.protect_branches()
                },
                other => {
                    self.stage = RepoStage::Done;
                    Action::Finish(Err(failure(other)))
                },
            },
            RepoStage::Protect => match event {
                Event::Replied(_) => {
                    if self.owner_ids.len() == 0 {
                        self.stage = RepoStage::Done;
                        self.answer()
                    } else {
                        self.stage = RepoStage::AddMember(0);
                        self.add_member(0)
                    }
                },
                other => {
                    self.stage = RepoStage::Done;
                    Action::Finish(Err(failure(other)))
                },
            },
            RepoStage::AddMember(k) => match event {
                Event::Replied(_) => {
                    let n = self.owner_ids.len();
                    if k == n - 1 {
                        self.stage = RepoStage::Done;
                        self.answer()
                    } else {
                        self.stage = RepoStage::AddMember(k + 1);
                        self.add_member(k + 1)
                    }
                },
                other => {
                    self.stage = RepoStage::Done;
                    Action::Finish(Err(failure(other)))
                },
            },
        }
    }
}


// ---------------------------------------------------------------------------
// Courses and assignments
// ---------------------------------------------------------------------------

#[derive(Debug, Clone, Copy, PartialEq, Eq, Structural)]
pub enum GroupStage {
    ResolveParent,
    Create,
    Remember,
    Done,
}

/// Creates the group of a course, or the sub-group of an assignment under
/// its course's group, and maps the UUID to it.
pub struct CreateGroupFlow {
    pub parent: Option<Uuid>,
    pub request: CreateGroup,
    pub stage: GroupStage,
    pub group_id: u64,
}

impl CreateGroupFlow {
    pub fn course(request: CreateGroup) -> (r: Self)
        ensures
            r.parent is None,
            r.request == request,
            r.stage == GroupStage::Create,
    {
        CreateGroupFlow { parent: None, request, stage: GroupStage::Create, group_id: 0 }
    }

    pub fn assignment(parent: Uuid, request: CreateGroup) -> (r: Self)
        ensures
            r.parent == Some(parent),
            r.request == request,
            r.stage == GroupStage::ResolveParent,
    {
        CreateGroupFlow { parent: Some(parent), request, stage: GroupStage::ResolveParent, group_id: 0 }
    }

    /// The call that creates the group, under `parent` if given.
    pub open spec fn is_group_call(&self, a: Action, parent: Option<u64>) -> bool {
        &&& is_call(a, Method::Post, "groups"@)
        &&& call_body(a) matches Body::CreateGroup(b)
        &&& b.name@ == self.request.name@
        &&& b.path@ == self.request.name@
        &&& b.visibility@ == "private"@
        &&& b.parent_id == parent
    }

    fn group_call(&self, parent: Option<u64>) -> (r: Action)
        ensures
            self.is_group_call(r, parent),
    {
        let body = match parent {
            Some(p) => CreateGroupGitlab::assignment(&self.request, p),
            None => CreateGroupGitlab::from(&self.request),
        };
        call(Method::Post, String::from_str(body.path()), Body::CreateGroup(body))
    }

    /// An assignment opens by resolving its course; a course by creating
    /// its group.
    pub fn first(&self) -> (r: Action)
        ensures
            match self.parent {
                Some(p) => is_lookup(r, KeyView::Group(p.parsed)),
                None => self.is_group_call(r, None),
            },
    {
        match &self.parent {
            Some(p) => Action::Store(StoreOp::Lookup(StoreKey::Group(p.parsed))),
            None => self.group_call(None),
        }
    }

    /// A missing course ends the workflow with `NotFound` before any call;
    /// the id of the created group is then mapped from the UUID.
    pub fn step(&mut self, event: Event) -> (r: Action)
        ensures
            final(self).parent == old(self).parent,
            final(self).request == old(self).request,
            r is Finish ==> final(self).stage is Done,
            old(self).stage is Done ==> finishes_with(r, already_finished()),
            old(self).stage is ResolveParent ==> match event {
                Event::Found(pid) => final(self).stage is Create && old(self).is_group_call(r, Some(pid)),
                _ => finishes_with(r, failure_of(event)),
            },
            old(self).stage is Create ==> match event {
                Event::Replied(rep) => match rep.id {
                    Some(id) => final(self).stage is Remember && final(self).group_id == id
                        && is_insert(r, KeyView::Group(old(self).request.uuid), id),
                    None => finishes_with(r, schema_changed()),
                },
                _ => finishes_with(r, failure_of(event)),
            },
            old(self).stage is Remember ==> if event is Stored {
                r == Action::Finish(Ok(Answer::Created))
            } else {
                finishes_with(r, failure_of(event))
            },
    {
        match self.stage {
            GroupStage::Done => Action::Finish(Err(Error::new("workflow finished"))),
            GroupStage::ResolveParent => match event {
                Event::Found(pid) => {
                    self.stage = GroupStage::Create;
                    self.group_call(Some(pid))
                },
                other => {
                    self.stage = GroupStage::Done;
                    Action::Finish(Err(failure(other)))
                },
            },
            GroupStage::Create => match event {
                Event::Replied(rep) => match rep.id {
                    Some(id) => {
                        self.group_id = id;
                        self.stage = GroupStage::Remember;
                        Action::Store(StoreOp::Insert(StoreKey::Group(self.request.uuid), id))
                    },
                    None => {
                        self.stage = GroupStage::Done;
                        Action::Finish(Err(Error::new("Gitlab schema changed")))
                    },
                },
                other => {
                    self.stage = GroupStage::Done;
                    Action::Finish(Err(failure(other)))
                },
            },
            GroupStage::Remember => {
                self.stage = GroupStage::Done;
                match event {
                    Event::Stored => Action::Finish(Ok(Answer::Created)),
                    other => Action::Finish(Err(failure(other))),
                }
            },
        }
    }
}

// ---------------------------------------------------------------------------
// Deleting an assignment or a repository
// ---------------------------------------------------------------------------

#[derive(Debug, Clone, Copy, PartialEq, Eq, Structural)]
pub enum DeleteStage {
    Resolve,
    Delete,
    Forget,
    Done,
}

/// Resolves a key, deletes the upstream resource, then forgets its mapping.
pub struct DeleteFlow {
    pub key: StoreKey,
    pub space: Space,
    pub stage: DeleteStage,
    pub id: u64,
}

/// The upstream path of a resource of a space.
pub open spec fn resource_path(space: Space, id: u64) -> Seq<char> {
    match space {
        Space::Groups => "groups/"@ + decimal_chars(id as nat),
        Space::Repos => "projects/"@ + decimal_chars(id as nat),
    }
}

impl DeleteFlow {
    /// Deleting an assignment's sub-group.
    pub fn assignment(assignment: &Uuid) -> (r: Self)
        ensures
            r.key@ == KeyView::Group(assignment.parsed),
            r.space == Space::Groups,
            r.stage == DeleteStage::Resolve,
    {
        DeleteFlow { key: StoreKey::Group(assignment.parsed), space: Space::Groups, stage: DeleteStage::Resolve, id: 0 }
    }

    /// Deleting a repository's project.
    pub fn repo(course: &Uuid, assignment: &Uuid, name: String) -> (r: Self)
        ensures
            r.key@ == KeyView::Repo(course.parsed, assignment.parsed, name@),
            r.space == Space::Repos,
            r.stage == DeleteStage::Resolve,
    {
        DeleteFlow {
            key: StoreKey::Repo(course.parsed, assignment.parsed, name),
            space: Space::Repos,
            stage: DeleteStage::Resolve,
            id: 0,
        }
    }

    pub fn first(&self) -> (r: Action)
        ensures
            is_lookup(r, self.key@),
    {
        Action::Store(StoreOp::Lookup(self.key.duplicate()))
    }

    pub fn step(&mut self, event: Event) -> (r: Action)
        ensures
            final(self).key == old(self).key,
            final(self).space == old(self).space,
            r is Finish ==> final(self).stage is Done,
            old(self).stage is Done ==> finishes_with(r, already_finished()),
            old(self).stage is Resolve ==> match event {
                Event::Found(id) => final(self).stage is Delete && final(self).id == id
                    && is_call(r, Method::Delete, resource_path(old(self).space, id)) && call_body(r) is Empty,
                _ => finishes_with(r, failure_of(event)),
            },
            old(self).stage is Delete ==> if event is Replied {
                final(self).stage is Forget && is_forget(r, old(self).space, old(self).id)
            } else {
                finishes_with(r, failure_of(event))
            },
            old(self).stage is Forget ==> if event is Stored {
                r == Action::Finish(Ok(Answer::Done))
            } else {
                finishes_with(r, failure_of(event))
            },
    {
        match self.stage {
            DeleteStage::Done => Action::Finish(Err(Error::new("workflow finished"))),
            DeleteStage::Resolve => match event {
                Event::Found(id) => {
                    self.id = id;
                    self.stage = DeleteStage::Delete;
                    let prefix = match self.space {
                        Space::Groups => "groups/",
                        Space::Repos => "projects/",
                    };
                    let mut p = String::from_str(prefix);
                    p.append(decimal(id).as_str());
                    call(Method::Delete, p, Body::Empty)
                },
                other => {
                    self.stage = DeleteStage::Done;
                    Action::Finish(Err(failure(other)))
                },
            },
            DeleteStage::Delete => match event {
                Event::Replied(_) => {
                    self.stage = DeleteStage::Forget;
                    Action::Store(StoreOp::Forget(self.space, self.id))
                },
                other => {
                    self.stage = DeleteStage::Done;
                    Action::Finish(Err(failure(other)))
                },
            },
            DeleteStage::Forget => {
                self.stage = DeleteStage::Done;
                match event {
                    Event::Stored => Action::Finish(Ok(Answer::Done)),
                    other => Action::Finish(Err(failure(other))),
                }
            },
        }
    }
}


// ---------------------------------------------------------------------------
// Deleting a course
// ---------------------------------------------------------------------------

#[derive(Debug, Clone, Copy, PartialEq, Eq, Structural)]
pub enum CourseStage {
    Resolve,
    ListSubgroups,
    ForgetSubgroup(usize),
    Delete,
    ForgetCourse,
    Done,
}

/// Deletes a course: the mappings of its assignments' sub-groups are
/// forgotten one by one, then its group is deleted upstream (which deletes
/// the sub-groups with it), then the course's own mapping is forgotten.
pub struct DeleteCourseFlow {
    pub course: Uuid,
    pub stage: CourseStage,
    pub course_id: u64,
    pub subgroups: Vec<u64>,
}

impl DeleteCourseFlow {
    pub fn new(course: Uuid) -> (r: Self)
        ensures
            r.wf(),
            r.course == course,
            r.stage == CourseStage::Resolve,
    {
        DeleteCourseFlow { course, stage: CourseStage::Resolve, course_id: 0, subgroups: Vec::new() }
    }

    pub open spec fn wf(&self) -> bool {
        self.stage matches CourseStage::ForgetSubgroup(k) ==> k < self.subgroups@.len()
    }

    pub open spec fn is_delete_call(&self, a: Action) -> bool {
        is_call(a, Method::Delete, "groups/"@ + decimal_chars(self.course_id as nat)) && call_body(a) is Empty
    }

    pub fn first(&self) -> (r: Action)
        ensures
            is_lookup(r, KeyView::Group(self.course.parsed)),
    {
        Action::Store(StoreOp::Lookup(StoreKey::Group(self.course.parsed)))
    }

    fn delete_call(&self) -> (r: Action)
        ensures
            self.is_delete_call(r),
    {
        let mut p = String::from_str("groups/");
        p.append(decimal(self.course_id).as_str());
        call(Method::Delete, p, Body::Empty)
    }

    pub fn step(&mut self, event: Event) -> (r: Action)
        requires
            old(self).wf(),
        ensures
            final(self).wf(),
            final(self).course == old(self).course,
            r is Finish ==> final(self).stage is Done,
            old(self).stage is Done ==> finishes_with(r, already_finished()),
            old(self).stage is Resolve ==> match event {
                Event::Found(id) => final(self).stage is ListSubgroups && final(self).course_id == id
                    && is_call(r, Method::Get, id_path("groups/"@, id, "/subgroups"@)) && call_body(r) is Empty,
                _ => finishes_with(r, failure_of(event)),
            },
            !(old(self).stage is Resolve) ==> final(self).course_id == old(self).course_id,
            old(self).stage is ListSubgroups ==> match event {
                Event::Replied(rep) => match rep.ids {
                    Some(ids) => final(self).subgroups@ == ids@ && if ids@.len() == 0 {
                        final(self).stage is Delete && final(self).is_delete_call(r)
                    } else {
                        final(self).stage == CourseStage::ForgetSubgroup(0) && is_forget(r, Space::Groups, ids@[0])
                    },
                    None => finishes_with(r, schema_changed()),
                },
                _ => finishes_with(r, failure_of(event)),
            },
            old(self).stage matches CourseStage::ForgetSubgroup(k) ==> if event is Stored {
                final(self).subgroups == old(self).subgroups && if k + 1 == old(self).subgroups@.len() {
                    final(self).stage is Delete && final(self).is_delete_call(r)
                } else {
                    final(self).stage == CourseStage::ForgetSubgroup((k + 1) as usize)
                        && is_forget(r, Space::Groups, old(self).subgroups@[k + 1])
                }
            } else {
                finishes_with(r, failure_of(event))
            },
            old(self).stage is Delete ==> if event is Replied {
                final(self).stage is ForgetCourse && is_forget(r, Space::Groups, old(self).course_id)
            } else {
                finishes_with(r, failure_of(event))
            },
            old(self).stage is ForgetCourse ==> if event is Stored {
                r == Action::Finish(Ok(Answer::Done))
            } else {
                finishes_with(r, failure_of(event))
            },
    {
        match self.stage {
            CourseStage::Done => Action::Finish(Err(Error::new("workflow finished"))),
            CourseStage::Resolve => match event {
                Event::Found(id) => {
                    self.course_id = id;
                    self.stage = CourseStage::ListSubgroups;
                    let mut p = String::from_str("groups/");
                    p.append(decimal(id).as_str());
                    p.append("/subgroups");
                    call(Method::Get, p, Body::Empty)
                },
                other => {
                    self.stage = CourseStage::Done;
                    Action::Finish(Err(failure(other)))
                },
            },
            CourseStage::ListSubgroups => match event {
                Event::Replied(rep) => match rep.ids {
                    Some(ids) => {
                        self.subgroups = ids;
                        if self.subgroups.len() == 0 {
                            self.stage = CourseStage::Delete;
                            self.delete_call()
                        } else {
                            self.stage = CourseStage::ForgetSubgroup(0);
                            Action::Store(StoreOp::Forget(Space::Groups, self.subgroups[0]))
                        }
                    },
                    None => {
                        self.stage = CourseStage::Done;
                        Action::Finish(Err(Error::new("Gitlab schema changed")))
                    },
                },
                other => {
                    self.stage = CourseStage::Done;
                    Action::Finish(Err(failure(other)))
                },
            },
            CourseStage::ForgetSubgroup(k) => match event {
                Event::Stored => {
                    let n = self.subgroups.len();
                    if k == n - 1 {
                        self.stage = CourseStage::Delete;
                        self.delete_call()
                    } else {
                        self.stage = CourseStage::ForgetSubgroup(k + 1);
                        Action::Store(StoreOp::Forget(Space::Groups, self.subgroups[k + 1]))
                    }
                },
                other => {
                    self.stage = CourseStage::Done;
                    Action::Finish(Err(failure(other)))
                },
            },
            CourseStage::Delete => match event {
                Event::Replied(_) => {
                    self.stage = CourseStage::ForgetCourse;
                    Action::Store(StoreOp::Forget(Space::Groups, self.course_id))
                },
                other => {
                    self.stage = CourseStage::Done;
                    Action::Finish(Err(failure(other)))
                },
            },
            CourseStage::ForgetCourse => {
                self.stage = CourseStage::Done;
                match event {
                    Event::Stored => Action::Finish(Ok(Answer::Done)),
                    other => Action::Finish(Err(failure(other))),
                }
            },
        }
    }
}

// ---------------------------------------------------------------------------
// Instructors
// ---------------------------------------------------------------------------

/// The access level of an instructor in a course's group (owner).
pub const INSTRUCTOR: u8 = 50;

#[derive(Debug, Clone, Copy, PartialEq, Eq, Structural)]
pub enum InstructorStage {
    ResolveCourse,
    ResolveUser,
    Grant,
    Done,
}

/// Gives a user owner access to a course's group; both are resolved first.
pub struct AddInstructorFlow {
    pub course: Uuid,
    pub instructor_name: String,
    pub stage: InstructorStage,
    pub course_id: u64,
}

impl AddInstructorFlow {
    pub fn new(course: Uuid, instructor_name: String) -> (r: Self)
        ensures
            r.course == course,
            r.instructor_name == instructor_name,
            r.stage == InstructorStage::ResolveCourse,
    {
        AddInstructorFlow { course, instructor_name, stage: InstructorStage::ResolveCourse, course_id: 0 }
    }

    pub fn first(&self) -> (r: Action)
        ensures
            is_lookup(r, KeyView::Group(self.course.parsed)),
    {
        Action::Store(StoreOp::Lookup(StoreKey::Group(self.course.parsed)))
    }

    pub fn step(&mut self, event: Event) -> (r: Action)
        ensures
            final(self).course == old(self).course,
            final(self).instructor_name == old(self).instructor_name,
            r is Finish ==> final(self).stage is Done,
            old(self).stage is Done ==> finishes_with(r, already_finished()),
            old(self).stage is ResolveCourse ==> match event {
                Event::Found(cid) => final(self).stage is ResolveUser && final(self).course_id == cid
                    && is_lookup(r, KeyView::User(old(self).instructor_name@)),
                _ => finishes_with(r, failure_of(event)),
            },
            old(self).stage is ResolveUser ==> match event {
                Event::Found(uid) => final(self).stage is Grant && is_call(
                    r,
                    Method::Post,
                    id_path("groups/"@, old(self).course_id, "/members"@),
                ) && (call_body(r) matches Body::AddUserToGroup(b) && b.group_id == old(self).course_id
                    && b.user_id == uid && b.access_level == INSTRUCTOR),
                _ => finishes_with(r, failure_of(event)),
            },
            old(self).stage is Grant ==> if event is Replied {
                r == Action::Finish(Ok(Answer::Done))
            } else {
                finishes_with(r, failure_of(event))
            },
    {
        match self.stage {
            InstructorStage::Done => Action::Finish(Err(Error::new("workflow finished"))),
            InstructorStage::ResolveCourse => match event {
                Event::Found(cid) => {
                    self.course_id = cid;
                    self.stage = InstructorStage::ResolveUser;
                    Action::Store(StoreOp::Lookup(StoreKey::User(self.instructor_name.clone())))
                },
                other => {
                    self.stage = InstructorStage::Done;
                    Action::Finish(Err(failure(other)))
                },
            },
            InstructorStage::ResolveUser => match event {
                Event::Found(uid) => {
                    self.stage = InstructorStage::Grant;
                    let m = AddUserToGroupGitlab::new(uid, self.course_id, INSTRUCTOR);
                    let p = m.path();
                    call(Method::Post, p, Body::AddUserToGroup(m))
                },
                other => {
                    self.stage = InstructorStage::Done;
                    Action::Finish(Err(failure(other)))
                },
            },
            InstructorStage::Grant => {
                self.stage = InstructorStage::Done;
                match event {
                    Event::Replied(_) => Action::Finish(Ok(Answer::Done)),
                    other => Action::Finish(Err(failure(other))),
                }
            },
        }
    }
}


// ---------------------------------------------------------------------------
// SSH keys
// ---------------------------------------------------------------------------

#[derive(Debug, Clone, Copy, PartialEq, Eq, Structural)]
pub enum KeyStage {
    Resolve,
    ListKeys,
    DeleteKey(usize),
    AddKey,
    Done,
}

/// Replaces all SSH keys of a user by one: every key upstream is deleted,
/// then the new one is added. A failure in between leaves the user with the
/// keys not yet deleted, or with none.
pub struct UpdateKeyFlow {
    pub user: String,
    pub key: String,
    pub stage: KeyStage,
    pub user_id: u64,
    pub keys: Vec<u64>,
}

impl UpdateKeyFlow {
    pub fn new(user: String, key: String) -> (r: Self)
        ensures
            r.wf(),
            r.user == user,
            r.key == key,
            r.stage == KeyStage::Resolve,
    {
        UpdateKeyFlow { user, key, stage: KeyStage::Resolve, user_id: 0, keys: Vec::new() }
    }

    pub open spec fn wf(&self) -> bool {
        self.stage matches KeyStage::DeleteKey(k) ==> k < self.keys@.len()
    }

    /// The call that deletes the user's key with id `kid`.
    pub open spec fn is_delete_key(&self, a: Action, kid: u64) -> bool {
        is_call(a, Method::Delete, id_path("users/"@, self.user_id, "/keys/"@) + decimal_chars(kid as nat))
            && call_body(a) is Empty
    }

    /// The call that adds the new key.
    pub open spec fn is_add_key(&self, a: Action) -> bool {
        &&& is_call(a, Method::Post, id_path("users/"@, self.user_id, "/keys"@))
        &&& call_body(a) matches Body::AddKey(b)
        &&& b.id == self.user_id
        &&& b.title@ == "key"@
        &&& b.key@ == self.key@
    }

    pub fn first(&self) -> (r: Action)
        ensures
            is_lookup(r, KeyView::User(self.user@)),
    {
        Action::Store(StoreOp::Lookup(StoreKey::User(self.user.clone())))
    }

    fn delete_key(&self, kid: u64) -> (r: Action)
        ensures
            self.is_delete_key(r, kid),
    {
        let mut p = String::from_str("users/");
        p.append(decimal(self.user_id).as_str());
        p.append("/keys/");
        p.append(decimal(kid).as_str());
        call(Method::Delete, p, Body::Empty)
    }

    fn add_key(&self) -> (r: Action)
        ensures
            self.is_add_key(r),
    {
        let k = AddKeyGitlab::new(self.user_id, self.key.clone());
        let p = k.path();
        call(Method::Post, p, Body::AddKey(k))
    }

    pub fn step(&mut self, event: Event) -> (r: Action)
        requires
            old(self).wf(),
        ensures
            final(self).wf(),
            final(self).user == old(self).user,
            final(self).key == old(self).key,
            r is Finish ==> final(self).stage is Done,
            old(self).stage is Done ==> finishes_with(r, already_finished()),
            old(self).stage is Resolve ==> match event {
                Event::Found(id) => final(self).stage is ListKeys && final(self).user_id == id
                    && is_call(r, Method::Get, id_path("users/"@, id, "/keys"@)) && call_body(r) is Empty,
                _ => finishes_with(r, failure_of(event)),
            },
            !(old(self).stage is Resolve) ==> final(self).user_id == old(self).user_id,
            old(self).stage is ListKeys ==> match event {
                Event::Replied(rep) => match rep.ids {
                    Some(ids) => final(self).keys@ == ids@ && if ids@.len() == 0 {
                        final(self).stage is AddKey && old(self).is_add_key(r)
                    } else {
                        final(self).stage == KeyStage::DeleteKey(0) && old(self).is_delete_key(r, ids@[0])
                    },
                    None => finishes_with(r, schema_changed()),
                },
                _ => finishes_with(r, failure_of(event)),
            },
            old(self).stage matches KeyStage::DeleteKey(k) ==> if event is Replied {
                final(self).keys == old(self).keys && if k + 1 == old(self).keys@.len() {
                    final(self).stage is AddKey && old(self).is_add_key(r)
                } else {
                    final(self).stage == KeyStage::DeleteKey((k + 1) as usize)
                        && old(self).is_delete_key(r, old(self).keys@[k + 1])
                }
            } else {
                finishes_with(r, failure_of(event))
            },
            old(self).stage is AddKey ==> if event is Replied {
                r == Action::Finish(Ok(Answer::Done))
            } else {
                finishes_with(r, failure_of(event))
            },
    {
        match self.stage {
            KeyStage::Done => Action::Finish(Err(Error::new("workflow finished"))),
            KeyStage::Resolve => match event {
                Event::Found(id) => {
                    self.user_id = id;
                    self.stage = KeyStage::ListKeys;
                    let mut p = String::from_str("users/");
                    p.append(decimal(id).as_str());
                    p.append("/keys");
                    call(Method::Get, p, Body::Empty)
                },
                other => {
                    self.stage = KeyStage::Done;
                    Action::Finish(Err(failure(other)))
                },
            },
            KeyStage::ListKeys => match event {
                Event::Replied(rep) => match rep.ids {
                    Some(ids) => {
                        self.keys = ids;
                        if self.keys.len() == 0 {
                            self.stage = KeyStage::AddKey;
                            self.add_key()
                        } else {
                            self.stage = KeyStage::DeleteKey(0);
                            self.delete_key(self.keys[0])
                        }
                    },
                    None => {
                        self.stage = KeyStage::Done;
                        Action::Finish(Err(Error::new("Gitlab schema changed")))
                    },
                },
                other => {
                    self.stage = KeyStage::Done;
                    Action::Finish(Err(failure(other)))
                },
            },
            KeyStage::DeleteKey(k) => match event {
                Event::Replied(_) => {
                    let n = self.keys.len();
                    if k == n - 1 {
                        self.stage = KeyStage::AddKey;
                        self.add_key()
                    } else {
                        self.stage = KeyStage::DeleteKey(k + 1);
                        self.delete_key(self.keys[k + 1])
                    }
                },
                other => {
                    self.stage = KeyStage::Done;
                    Action::Finish(Err(failure(other)))
                },
            },
            KeyStage::AddKey => {
                self.stage = KeyStage::Done;
                match event {
                    Event::Replied(_) => Action::Finish(Ok(Answer::Done)),
                    other => Action::Finish(Err(failure(other))),
                }
            },
        }
    }
}

// ---------------------------------------------------------------------------
// Users
// ---------------------------------------------------------------------------

#[derive(Debug, Clone, Copy, PartialEq, Eq, Structural)]
pub enum UserStage {
    Validate,
    Create,
    Remember,
    Done,
}

/// Creates a GitLab user for an e-mail address and maps the address to it.
pub struct CreateUserFlow {
    pub request: CreateUser,
    pub stage: UserStage,
}

pub open spec fn password_too_short(password: Seq<char>) -> bool {
    encode_utf8(password).len() < 8
}

impl CreateUserFlow {
    pub fn new(request: CreateUser) -> (r: Self)
        ensures
            r.request == request,
            r.stage == UserStage::Validate,
    {
        CreateUserFlow { request, stage: UserStage::Validate }
    }

    /// A password under eight bytes, or an address without `@` or whose
    /// name is `admin`, is refused before any call; otherwise the user is
    /// created upstream.
    pub fn first(&mut self) -> (r: Action)
        ensures
            final(self).request == old(self).request,
            !(old(self).stage is Validate) ==> finishes_with(r, unexpected()) && final(self).stage is Done,
            old(self).stage is Validate && password_too_short(old(self).request.password@) ==> r
                == Action::Finish(Ok(Answer::BadRequest("Password too short (len<8)")))
                && final(self).stage is Done,
            old(self).stage is Validate && !password_too_short(old(self).request.password@) ==> match user_name_of(old(self).request.email@) {
                None => r == Action::Finish(Ok(Answer::BadRequest("Invalid email")))
                    && final(self).stage is Done,
                Some(n) => final(self).stage is Create && is_call(r, Method::Post, "users"@)
                    && (call_body(r) matches Body::CreateUser(u) && u.email@ == old(self).request.email@
                    && u.username@ == n && u.name@ == n && u.password@ == old(self).request.password@),
            },
    {
        if self.stage != UserStage::Validate {
            self.stage = UserStage::Done;
            return Action::Finish(Err(Error::new("unexpected event")));
        }
        if self.request.password.as_str().as_bytes().len() < 8 {
            self.stage = UserStage::Done;
            return Action::Finish(Ok(Answer::BadRequest("Password too short (len<8)")));
        }
        match CreateUserGitLab::from(&self.request) {
            Ok(u) => {
                self.stage = UserStage::Create;
                call(Method::Post, String::from_str(u.path()), Body::CreateUser(u))
            },
            Err(()) => {
                self.stage = UserStage::Done;
                Action::Finish(Ok(Answer::BadRequest("Invalid email")))
            },
        }
    }

    pub fn step(&mut self, event: Event) -> (r: Action)
        ensures
            final(self).request == old(self).request,
            r is Finish ==> final(self).stage is Done,
            (old(self).stage is Done || old(self).stage is Validate) ==> finishes_with(r, unexpected()),
            old(self).stage is Create ==> match event {
                Event::Replied(rep) => match rep.id {
                    Some(id) => final(self).stage is Remember && is_insert(
                        r,
                        KeyView::User(old(self).request.email@),
                        id,
                    ),
                    None => finishes_with(r, schema_changed()),
                },
                _ => finishes_with(r, failure_of(event)),
            },
            old(self).stage is Remember ==> if event is Stored {
                r == Action::Finish(Ok(Answer::Created))
            } else {
                finishes_with(r, failure_of(event))
            },
    {
        match self.stage {
            UserStage::Done | UserStage::Validate => {
                self.stage = UserStage::Done;
                Action::Finish(Err(Error::new("unexpected event")))
            },
            UserStage::Create => match event {
                Event::Replied(rep) => match rep.id {
                    Some(id) => {
                        self.stage = UserStage::Remember;
                        Action::Store(StoreOp::Insert(StoreKey::User(self.request.email.clone()), id))
                    },
                    None => {
                        self.stage = UserStage::Done;
                        Action::Finish(Err(Error::new("Gitlab schema changed")))
                    },
                },
                other => {
                    self.stage = UserStage::Done;
                    Action::Finish(Err(failure(other)))
                },
            },
            UserStage::Remember => {
                self.stage = UserStage::Done;
                match event {
                    Event::Stored => Action::Finish(Ok(Answer::Created)),
                    other => Action::Finish(Err(failure(other))),
                }
            },
        }
    }
}

/// Creating the same repository twice never creates two projects: once
/// the first workflow has stored its mapping, and nothing since has
/// forgotten it, the opening lookup of a second workflow for the same
/// course, assignment and name finds that mapping, and on it
/// `CreateRepoFlow::step` ends the workflow with `AlreadyExists` before any
/// upstream call.
pub proof fn lemma_recreated_repo_is_found(
    m: Map<KeyView, u64>,
    first_id: u64,
    later: Seq<Change>,
    second: CreateRepoFlow,
    opening: Action,
)
    requires
        !m.contains_key(second.repo_key()),
        forall|i: int| 0 <= i < later.len() ==> !removes(#[trigger] later[i], second.repo_key(), first_id),
        is_lookup(opening, second.repo_key()),
    ensures
        store_outcome(apply_changes(insert_model(m, second.repo_key(), first_id), later), opening->Store_0)
            == Event::Found(first_id),
{
    lemma_lookup_after_insert(m, second.repo_key(), first_id, later);
}

} // verus!
