//! The broker: the session registry, the resource registry and the dispatch
//! table behind one service interface.
//!
//! The broker decides; it touches no file. Whoever runs it creates the run
//! directory that `next_rundir` names before it calls `new_session`, and
//! removes the run directory of the session that `destroy_session` hands back.
use vstd::prelude::*;
use std::sync::Arc;
use dashmap::DashMap;
use crate::capability::{Answer, VaccelPlugin, answer_of, answers_load, answers_unload};
use crate::plugin::Plugins;
use crate::resource::{Resource, ResourceView};
use crate::rundir::{session_path, session_rundir};
use crate::session::{Session, SessionView};
use crate::{Error, ErrorView, reported};

verus! {

/// Sessions by id.
pub type SessionEntries = Map<u64, Arc<Session>>;

/// Resources by id.
pub type ResourceEntries = Map<u64, Arc<Resource>>;

/// The sessions a registry holds, by id.
pub uninterp spec fn session_entries(registry: DashMap<u64, Arc<Session>>) -> Map<
    u64,
    Arc<Session>,
>;

/// The resources a registry holds, by id.
pub uninterp spec fn resource_entries(registry: DashMap<u64, Arc<Resource>>) -> Map<
    u64,
    Arc<Resource>,
>;

/// `DashMap::new`: a session registry that holds nothing.
#[verifier::external_body]
fn sessions_new() -> (registry: DashMap<u64, Arc<Session>>)
    ensures
        session_entries(registry) == SessionEntries::empty(),
{
    DashMap::new()
}

/// `DashMap::insert`, called by the registry's only holder: `session` stands
/// under `id` afterwards, and the session that stood there before is returned.
#[verifier::external_body]
fn sessions_insert(registry: &mut DashMap<u64, Arc<Session>>, id: u64, session: Arc<Session>) -> (previous:
    Option<Arc<Session>>)
    ensures
        session_entries(*final(registry)) == session_entries(*old(registry)).insert(id, session),
        match previous {
            Some(before) => session_entries(*old(registry)).contains_key(id) && before
                == session_entries(*old(registry))[id],
            None => !session_entries(*old(registry)).contains_key(id),
        },
{
    registry.insert(id, session)
}

/// `DashMap::remove`, called by the registry's only holder: the session
/// under `id` leaves the registry and is returned with its key; where there
/// was none, nothing changes.
#[verifier::external_body]
fn sessions_remove(registry: &mut DashMap<u64, Arc<Session>>, id: &u64) -> (taken: Option<
    (u64, Arc<Session>),
>)
    ensures
        session_entries(*final(registry)) == session_entries(*old(registry)).remove(*id),
        match taken {
            Some((key, session)) => key == *id && session_entries(*old(registry)).contains_key(
                *id,
            ) && session == session_entries(*old(registry))[*id],
            None => !session_entries(*old(registry)).contains_key(*id),
        },
{
    registry.remove(id)
}

/// `DashMap::get`, with another pointer to the session that was found taken
/// out of the guard: the session under `id`, if the registry holds one. The
/// registry is not changed.
#[verifier::external_body]
fn sessions_get(registry: &DashMap<u64, Arc<Session>>, id: &u64) -> (found: Option<Arc<Session>>)
    ensures
        match found {
            Some(session) => session_entries(*registry).contains_key(*id) && session
                == session_entries(*registry)[*id],
            None => !session_entries(*registry).contains_key(*id),
        },
{
    registry.get(id).map(|entry| Arc::clone(entry.value()))
}

/// `DashMap::new`: a resource registry that holds nothing.
#[verifier::external_body]
fn resources_new() -> (registry: DashMap<u64, Arc<Resource>>)
    ensures
        resource_entries(registry) == ResourceEntries::empty(),
{
    DashMap::new()
}

/// `DashMap::insert`, called by the registry's only holder: `resource` stands
/// under `id` afterwards, and the resource that stood there before is returned.
#[verifier::external_body]
fn resources_insert(
    registry: &mut DashMap<u64, Arc<Resource>>,
    id: u64,
    resource: Arc<Resource>,
) -> (previous: Option<Arc<Resource>>)
    ensures
        resource_entries(*final(registry)) == resource_entries(*old(registry)).insert(
            id,
            resource,
        ),
        match previous {
            Some(before) => resource_entries(*old(registry)).contains_key(id) && before
                == resource_entries(*old(registry))[id],
            None => !resource_entries(*old(registry)).contains_key(id),
        },
{
    registry.insert(id, resource)
}

/// `DashMap::get`, with another pointer to the resource that was found taken
/// out of the guard: the resource under `id`, if the registry holds one. The
/// registry is not changed.
#[verifier::external_body]
fn resources_get(registry: &DashMap<u64, Arc<Resource>>, id: &u64) -> (found: Option<
    Arc<Resource>,
>)
    ensures
        match found {
            Some(resource) => resource_entries(*registry).contains_key(*id) && resource
                == resource_entries(*registry)[*id],
            None => !resource_entries(*registry).contains_key(*id),
        },
{
    registry.get(id).map(|entry| Arc::clone(entry.value()))
}

/// The state of a broker: its root run directory, the next session id, the
/// session registry, the next resource id, the resource registry and the
/// dispatch table.
pub struct ServerState {
    rundir: String,
    session_id: u64,
    sessions: DashMap<u64, Arc<Session>>,
    resource_id: u64,
    resources: DashMap<u64, Arc<Resource>>,
    plugins: Plugins,
}

/// The broker.
pub struct Server(ServerState);

/// What a broker holds.
#[verifier::ext_equal]
pub struct ServerView {
    /// The root run directory.
    pub root: Seq<char>,
    /// The id the next session gets.
    pub next_session: u64,
    /// The live sessions, by id.
    pub sessions: Map<u64, SessionView>,
    /// The id the next resource gets.
    pub next_resource: u64,
    /// The registered resources, by id.
    pub resources: Map<u64, ResourceView>,
    /// The dispatch table.
    pub plugins: Plugins,
}

/// What the caller reports of the run directory it was to create: created,
/// or the text of the I/O error.
pub open spec fn report_of(created: Result<(), String>) -> Result<(), Seq<char>> {
    match created {
        Ok(_) => Ok(()),
        Err(text) => Err(text@),
    }
}

impl ServerView {
    /// A broker that has served nothing yet.
    pub open spec fn fresh(root: Seq<char>, plugins: Plugins) -> ServerView {
        ServerView {
            root,
            next_session: 1,
            sessions: Map::empty(),
            next_resource: 1,
            resources: Map::empty(),
            plugins,
        }
    }

    /// Ids start at 1, every live session and every resource has an id that
    /// was handed out, each session stands under its own id with the run
    /// directory of that id, and each resource under the id it carries.
    pub open spec fn wf(self) -> bool {
        &&& self.next_session >= 1
        &&& self.next_resource >= 1
        &&& forall|id: u64| #[trigger]
            self.sessions.contains_key(id) ==> 1 <= id < self.next_session && self.sessions[id]
                == self.session(id)
        &&& forall|id: u64| #[trigger]
            self.resources.contains_key(id) ==> 1 <= id < self.next_resource
                && self.resources[id].id() == id
    }

    /// The session with the id `id`, as this broker makes it.
    pub open spec fn session(self, id: u64) -> SessionView {
        SessionView { id, rundir: Some(session_rundir(self.root, id)) }
    }

    /// The run directory to create before the next session is asked for;
    /// none where the ids have run out.
    pub open spec fn next_rundir(self) -> Option<Seq<char>> {
        if self.next_session == u64::MAX {
            None
        } else {
            Some(session_rundir(self.root, self.next_session))
        }
    }

    /// The broker after a request for a new session, and its reply.
    ///
    /// Where the ids have run out the request fails and changes nothing.
    /// Else the next id is used up, whatever `created` says. Where the run
    /// directory was created the session is entered and its id is the reply;
    /// where it was not, the I/O error is.
    pub open spec fn new_session(self, created: Result<(), Seq<char>>) -> (
        ServerView,
        Result<u64, ErrorView>,
    ) {
        if self.next_session == u64::MAX {
            (self, Err(ErrorView::UndefinedError))
        } else {
            let id = self.next_session;
            let used = ServerView { next_session: (id + 1) as u64, ..self };
            match created {
                Ok(_) => (
                    ServerView { sessions: self.sessions.insert(id, self.session(id)), ..used },
                    Ok(id),
                ),
                Err(text) => (used, Err(ErrorView::IOError(text))),
            }
        }
    }

    /// The broker after a request to destroy the session `id`, and its
    /// reply: the session, which leaves the registry, or `InvalidArgument`
    /// where there is no such session.
    pub open spec fn destroy_session(self, id: u64) -> (
        ServerView,
        Result<SessionView, ErrorView>,
    ) {
        if self.sessions.contains_key(id) {
            (ServerView { sessions: self.sessions.remove(id), ..self }, Ok(self.sessions[id]))
        } else {
            (self, Err(ErrorView::InvalidArgument))
        }
    }

    /// The broker after a request to register `resource`, and its reply:
    /// the next resource id, under which the resource is entered and which
    /// it carries from then on. Where the ids have run out the request fails
    /// and changes nothing.
    pub open spec fn register_resource(self, resource: ResourceView) -> (
        ServerView,
        Result<u64, ErrorView>,
    ) {
        if self.next_resource == u64::MAX {
            (self, Err(ErrorView::UndefinedError))
        } else {
            let id = self.next_resource;
            (
                ServerView {
                    next_resource: (id + 1) as u64,
                    resources: self.resources.insert(id, resource.with_id(id)),
                    ..self
                },
                Ok(id),
            )
        }
    }
}

/// The reply to a capability call that the dispatch table answered with `answer`.
pub open spec fn reply_of(answer: Answer) -> Result<(), ErrorView> {
    match answer {
        Ok(_) => Ok(()),
        Err(err) => Err(reported(err)),
    }
}

/// What a reply of the broker says.
pub open spec fn said<T>(reply: Result<T, Error>) -> Result<T, ErrorView> {
    match reply {
        Ok(value) => Ok(value),
        Err(err) => Err(err@),
    }
}

/// What the reply to a request to destroy a session says: what the session
/// that was handed back holds, or the error.
pub open spec fn handed_back(reply: Result<Arc<Session>, Error>) -> Result<SessionView, ErrorView> {
    match reply {
        Ok(session) => Ok(session@),
        Err(err) => Err(err@),
    }
}

impl View for Server {
    type V = ServerView;

    closed spec fn view(&self) -> ServerView {
        ServerView {
            root: self.0.rundir@,
            next_session: self.0.session_id,
            sessions: session_entries(self.0.sessions).map_values(|s: Arc<Session>| s@),
            next_resource: self.0.resource_id,
            resources: resource_entries(self.0.resources).map_values(|r: Arc<Resource>| r@),
            plugins: self.0.plugins,
        }
    }
}

/// The service a broker offers, the same over every transport.
pub trait VaccelAPI {
    /// What the broker holds.
    spec fn state(&self) -> ServerView;

    /// Create a new session. `created` says whether the run directory that
    /// the broker named for it could be created.
    fn new_session(&mut self, created: Result<(), String>) -> (r: Result<u64, Error>)
        ensures
            final(self).state() == old(self).state().new_session(report_of(created)).0,
            said(r) == old(self).state().new_session(report_of(created)).1,
    ;

    /// Destroy a session. The session that left the registry is handed
    /// back: its run directory is the caller's to remove.
    fn destroy_session(&mut self, session: u64) -> (r: Result<Arc<Session>, Error>)
        ensures
            final(self).state() == old(self).state().destroy_session(session).0,
            handed_back(r) == old(self).state().destroy_session(session).1,
    ;

    /// Register a new resource.
    fn register_resource(&mut self, resource: Resource) -> (r: Result<u64, Error>)
        ensures
            final(self).state() == old(self).state().register_resource(resource@).0,
            said(r) == old(self).state().register_resource(resource@).1,
    ;

    /// Load a TensorFlow model in memory, creating a session: the reply to
    /// an answer of the dispatch table.
    fn tf_session_load(&self, model_id: u64) -> (r: Result<(), Error>)
        ensures
            exists|answer: Answer| #[trigger]
                answers_load(&self.state().plugins, model_id, answer) && said(r) == reply_of(
                    answer,
                ),
    ;

    /// Unload a TensorFlow session: the reply to an answer of the dispatch
    /// table.
    fn tf_session_unload(&self, model_id: u64) -> (r: Result<(), Error>)
        ensures
            exists|answer: Answer| #[trigger]
                answers_unload(&self.state().plugins, model_id, answer) && said(r) == reply_of(
                    answer,
                ),
    ;
}

/// The reply to a capability call that a backend answered with `answer`.
pub fn reply(answer: Result<(), crate::capability::InvocationError>) -> (r: Result<(), Error>)
    ensures
        said(r) == reply_of(answer_of(answer)),
{
    match answer {
        Ok(()) => Ok(()),
        Err(err) => Err(Error::from(err)),
    }
}

impl Server {
    /// A broker that has served nothing yet, with the root run directory
    /// `rundir` and the dispatch table `plugins`.
    pub fn new(rundir: String, plugins: Plugins) -> (r: Self)
        ensures
            r@ == ServerView::fresh(rundir@, plugins),
            r@.wf(),
    {
        let server = Server(
            ServerState {
                rundir,
                session_id: 1,
                sessions: sessions_new(),
                resource_id: 1,
                resources: resources_new(),
                plugins,
            },
        );
        assert(server@ =~= ServerView::fresh(rundir@, plugins));
        server
    }

    /// Uses up the next session id; none where the ids have run out.
    fn next_id(&mut self) -> (r: Option<u64>)
        ensures
            old(self)@.next_session == u64::MAX ==> r is None && final(self)@ == old(self)@,
            old(self)@.next_session < u64::MAX ==> r == Some(old(self)@.next_session)
                && final(self)@ == (ServerView {
                next_session: (old(self)@.next_session + 1) as u64,
                ..old(self)@
            }),
    {
        if self.0.session_id == u64::MAX {
            None
        } else {
            let id = self.0.session_id;
            self.0.session_id = id + 1;
            Some(id)
        }
    }

    /// Takes the session `session_id` out of the registry, if it is there.
    fn remove_session(&mut self, session_id: &u64) -> (r: Option<Arc<Session>>)
        ensures
            final(self)@ == old(self)@.destroy_session(*session_id).0,
            match r {
                Some(session) => old(self)@.sessions.contains_key(*session_id) && session@
                    == old(self)@.sessions[*session_id],
                None => !old(self)@.sessions.contains_key(*session_id),
            },
    {
        let taken = sessions_remove(&mut self.0.sessions, session_id);
        assert(self@ =~= old(self)@.destroy_session(*session_id).0);
        match taken {
            None => None,
            Some((_, session)) => Some(session),
        }
    }

    /// The session `session_id`, if it is live.
    pub fn get_session(&self, session_id: &u64) -> (r: Option<Arc<Session>>)
        ensures
            match r {
                Some(session) => self@.sessions.contains_key(*session_id) && session@
                    == self@.sessions[*session_id],
                None => !self@.sessions.contains_key(*session_id),
            },
    {
        sessions_get(&self.0.sessions, session_id)
    }

    /// The resource registered under `id`, if there is one.
    pub fn lookup_resource(&self, id: u64) -> (r: Option<Arc<Resource>>)
        ensures
            match r {
                Some(resource) => self@.resources.contains_key(id) && resource@
                    == self@.resources[id],
                None => !self@.resources.contains_key(id),
            },
    {
        resources_get(&self.0.resources, &id)
    }

    /// The run directory to create before the next session is asked for;
    /// none where the ids have run out.
    pub fn next_rundir(&self) -> (r: Option<String>)
        ensures
            match r {
                Some(path) => self@.next_rundir() == Some(path@),
                None => self@.next_rundir() is None,
            },
    {
        if self.0.session_id == u64::MAX {
            None
        } else {
            Some(session_path(self.0.rundir.as_str(), self.0.session_id))
        }
    }
}

impl VaccelAPI for Server {
    open spec fn state(&self) -> ServerView {
        self@
    }

    fn new_session(&mut self, created: Result<(), String>) -> (r: Result<u64, Error>)
        ensures
            old(self)@.wf() ==> final(self)@.wf(),
    {
        proof {
            if self@.wf() {
                request_keeps_wf(self@, Request::NewSession(report_of(created)));
            }
        }
        let id = match self.next_id() {
            Some(id) => id,
            None => {
                return Err(Error::UndefinedError);
            },
        };
        match created {
            Err(text) => Err(Error::IOError(text)),
            Ok(()) => {
                let rundir = session_path(self.0.rundir.as_str(), id);
                let session = Session::new().with_id(id).with_rundir(rundir);
                sessions_insert(&mut self.0.sessions, id, Arc::new(session));
                assert(self@ =~= old(self)@.new_session(report_of(created)).0);
                Ok(id)
            },
        }
    }

    fn destroy_session(&mut self, session: u64) -> (r: Result<Arc<Session>, Error>)
        ensures
            old(self)@.wf() ==> final(self)@.wf(),
    {
        proof {
            if self@.wf() {
                request_keeps_wf(self@, Request::DestroySession(session));
            }
        }
        match self.remove_session(&session) {
            None => Err(Error::InvalidArgument),
            Some(destroyed) => Ok(destroyed),
        }
    }

    fn register_resource(&mut self, resource: Resource) -> (r: Result<u64, Error>)
        ensures
            old(self)@.wf() ==> final(self)@.wf(),
    {
        proof {
            if self@.wf() {
                request_keeps_wf(self@, Request::RegisterResource(resource@));
            }
        }
        if self.0.resource_id == u64::MAX {
            return Err(Error::UndefinedError);
        }
        let id = self.0.resource_id;
        self.0.resource_id = id + 1;
        resources_insert(&mut self.0.resources, id, Arc::new(resource.with_id(id)));
        assert(self@ =~= old(self)@.register_resource(resource@).0);
        Ok(id)
    }

    fn tf_session_load(&self, model_id: u64) -> (r: Result<(), Error>) {
        let answer = self.0.plugins.tf_session_load(model_id);
        let ghost given = answer_of(answer);
        let r = reply(answer);
        assert(answers_load(&self.state().plugins, model_id, given) && said(r) == reply_of(given));
        r
    }

    fn tf_session_unload(&self, model_id: u64) -> (r: Result<(), Error>) {
        let answer = self.0.plugins.tf_session_unload(model_id);
        let ghost given = answer_of(answer);
        let r = reply(answer);
        assert(answers_unload(&self.state().plugins, model_id, given) && said(r) == reply_of(
            given,
        ));
        r
    }
}

/// A request that changes what a broker holds.
pub enum Request {
    /// For a new session, with what the caller reports of its run directory.
    NewSession(Result<(), Seq<char>>),
    /// To destroy the session with this id.
    DestroySession(u64),
    /// To register this resource.
    RegisterResource(ResourceView),
}

impl ServerView {
    /// The broker after `request`.
    pub open spec fn after(self, request: Request) -> ServerView {
        match request {
            Request::NewSession(created) => self.new_session(created).0,
            Request::DestroySession(id) => self.destroy_session(id).0,
            Request::RegisterResource(resource) => self.register_resource(resource).0,
        }
    }

    /// The broker after `requests`, served in order.
    pub open spec fn after_all(self, requests: Seq<Request>) -> ServerView
        decreases requests.len(),
    {
        if requests.len() == 0 {
            self
        } else {
            self.after_all(requests.drop_last()).after(requests.last())
        }
    }
}

/// A broker that has served nothing yet is well formed, and gives its first
/// session the id 1.
pub proof fn fresh_broker_starts_at_one(root: Seq<char>, plugins: Plugins)
    ensures
        ServerView::fresh(root, plugins).wf(),
        ServerView::fresh(root, plugins).new_session(Ok(())).1 == Ok::<u64, ErrorView>(1),
{
}

/// No request breaks a well-formed broker.
pub proof fn request_keeps_wf(state: ServerView, request: Request)
    requires
        state.wf(),
    ensures
        state.after(request).wf(),
{
    let next = state.after(request);
    match request {
        Request::NewSession(created) => {
            assert forall|id: u64| #[trigger] next.sessions.contains_key(id) implies 1 <= id
                < next.next_session && next.sessions[id] == next.session(id) by {
                if id != state.next_session {
                    assert(state.sessions.contains_key(id));
                }
            }
        },
        Request::DestroySession(gone) => {
            assert forall|id: u64| #[trigger] next.sessions.contains_key(id) implies 1 <= id
                < next.next_session && next.sessions[id] == next.session(id) by {
                assert(state.sessions.contains_key(id));
            }
        },
        Request::RegisterResource(resource) => {
            assert forall|id: u64| #[trigger] next.resources.contains_key(id) implies 1 <= id
                < next.next_resource && next.resources[id].id() == id by {
                if id != state.next_resource {
                    assert(state.resources.contains_key(id));
                }
            }
        },
    }
}

/// Requests keep a well-formed broker well formed, never lower the id the
/// next session gets, and never bring back a session that was not live and
/// whose id had been handed out.
pub proof fn requests_keep_order(state: ServerView, requests: Seq<Request>)
    requires
        state.wf(),
    ensures
        state.after_all(requests).wf(),
        state.after_all(requests).next_session >= state.next_session,
        forall|id: u64|
            id < state.next_session && !state.sessions.contains_key(id)
                ==> !#[trigger] state.after_all(requests).sessions.contains_key(id),
    decreases requests.len(),
{
    if requests.len() > 0 {
        requests_keep_order(state, requests.drop_last());
        request_keeps_wf(state.after_all(requests.drop_last()), requests.last());
    }
}

/// Session ids only grow: of two sessions that a broker creates, the later
/// has the greater id, whatever requests were served in between.
pub proof fn later_session_has_greater_id(
    state: ServerView,
    first_created: Result<(), Seq<char>>,
    between: Seq<Request>,
    second_created: Result<(), Seq<char>>,
    first: u64,
    second: u64,
)
    requires
        state.wf(),
        state.new_session(first_created).1 == Ok::<u64, ErrorView>(first),
        state.new_session(first_created).0.after_all(between).new_session(second_created).1
            == Ok::<u64, ErrorView>(second),
    ensures
        first < second,
{
    request_keeps_wf(state, Request::NewSession(first_created));
    requests_keep_order(state.after(Request::NewSession(first_created)), between);
}

/// A session is destroyed once: the request succeeds for a live session,
/// and from then on, whatever requests are served in between, a request to
/// destroy the same id fails with `InvalidArgument` and changes nothing.
pub proof fn destroy_succeeds_once(state: ServerView, id: u64, between: Seq<Request>)
    requires
        state.wf(),
        state.sessions.contains_key(id),
    ensures
        state.destroy_session(id).1 == Ok::<SessionView, ErrorView>(state.session(id)),
        state.destroy_session(id).0.after_all(between).destroy_session(id) == (
            state.destroy_session(id).0.after_all(between),
            Err::<SessionView, ErrorView>(ErrorView::InvalidArgument),
        ),
{
    request_keeps_wf(state, Request::DestroySession(id));
    requests_keep_order(state.after(Request::DestroySession(id)), between);
}

/// A session stays live, and as it is, until it is destroyed: requests
/// among which none destroys it leave it in the registry.
pub proof fn session_stays_until_destroyed(state: ServerView, id: u64, between: Seq<Request>)
    requires
        state.wf(),
        state.sessions.contains_key(id),
        forall|i: int| 0 <= i < between.len() ==> between[i] != Request::DestroySession(id),
    ensures
        state.after_all(between).sessions.contains_key(id),
        state.after_all(between).sessions[id] == state.sessions[id],
    decreases between.len(),
{
    if between.len() > 0 {
        let earlier = between.drop_last();
        assert forall|i: int| 0 <= i < earlier.len() implies earlier[i]
            != Request::DestroySession(id) by {
            assert(earlier[i] == between[i]);
        }
        session_stays_until_destroyed(state, id, earlier);
        requests_keep_order(state, earlier);
        assert(between.last() == between[between.len() - 1]);
    }
}

/// A resource stays registered: once it was entered under the id that the
/// reply gave, it is found there, carrying that id, whatever requests follow.
pub proof fn resource_stays_registered(
    state: ServerView,
    resource: ResourceView,
    id: u64,
    between: Seq<Request>,
)
    requires
        state.wf(),
        state.register_resource(resource).1 == Ok::<u64, ErrorView>(id),
    ensures
        state.register_resource(resource).0.after_all(between).resources.contains_key(id),
        state.register_resource(resource).0.after_all(between).resources[id] == resource.with_id(
            id,
        ),
    decreases between.len(),
{
    let entered = state.register_resource(resource).0;
    request_keeps_wf(state, Request::RegisterResource(resource));
    if between.len() > 0 {
        let earlier = between.drop_last();
        resource_stays_registered(state, resource, id, earlier);
        requests_keep_order(entered, earlier);
    }
}

} // verus!
