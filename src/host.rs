//! The kernel facade: one owner for the dispatch table, the session
//! bookkeeping, the broadcaster and the provider registry.

use vstd::prelude::*;
use crate::mesh::{MeshError, MeshMessage, Payload, Reply};
use tokio::sync::oneshot;
use crate::registry::{default_spec, ProviderRegistry};
use crate::router::{route_spec, MeshRouter, Route};
use crate::session::{
    apply_writes, begin_spec, finish_spec, others, session_path, SessionError, SessionManager,
    SessionState, SessionView, WriteView, valid_base_path,
};
use crate::store::ScopedStore;
use crate::types::NodeInfo;
use crate::ws::{BroadcastMessage, BroadcastReceiver, Broadcaster, WsError, WsPatch};

verus! {

/// The kernel's coordination state. `E` is the endpoint through which a
/// component receives calls; `P` a provider implementation.
pub struct HostKernel<E, P> {
    router: MeshRouter<E>,
    broadcaster: Broadcaster,
    sessions: SessionManager,
    registry: ProviderRegistry<P>,
}

impl<E, P> HostKernel<E, P> {
    pub closed spec fn wf(&self) -> bool {
        &&& self.router.wf()
        &&& self.sessions.wf()
        &&& self.registry.wf()
    }

    /// Registered components and their endpoints.
    pub closed spec fn components(&self) -> Map<Seq<char>, E> {
        self.router@
    }

    /// All sessions ever issued.
    pub closed spec fn sessions(&self) -> Map<Seq<char>, SessionView> {
        self.sessions@
    }

    /// Writes staged by open sessions, oldest first.
    pub closed spec fn staged(&self) -> Seq<WriteView> {
        self.sessions.staged()
    }

    /// The resource tree that committed sessions wrote to.
    pub closed spec fn tree(&self) -> Map<Seq<char>, Seq<char>> {
        self.sessions.tree()
    }

    /// Everything the session manager holds: sessions, staged writes and
    /// the resource tree.
    pub open spec fn workspace(&self) -> (Map<Seq<char>, SessionView>, Seq<WriteView>, Map<Seq<char>, Seq<char>>) {
        (self.sessions(), self.staged(), self.tree())
    }

    /// The registered providers.
    pub closed spec fn providers(&self) -> Map<Seq<char>, P> {
        self.registry.providers()
    }

    /// The name most recently marked default.
    pub closed spec fn default_provider(&self) -> Option<Seq<char>> {
        self.registry.default_name()
    }

    /// The messages broadcast through the kernel, oldest first.
    pub closed spec fn sent(&self) -> Seq<BroadcastMessage> {
        self.broadcaster.sent()
    }

    /// A kernel with no components, sessions or subscribers, over `registry`.
    pub fn new(registry: ProviderRegistry<P>) -> (r: Self)
        requires
            registry.wf(),
        ensures
            r.wf(),
            r.components() == Map::<Seq<char>, E>::empty(),
            r.sessions() == Map::<Seq<char>, SessionView>::empty(),
            r.staged() == Seq::<WriteView>::empty(),
            r.tree() == Map::<Seq<char>, Seq<char>>::empty(),
            r.providers() == registry.providers(),
            r.default_provider() == registry.default_name(),
            r.sent() == Seq::<BroadcastMessage>::empty(),
    {
        HostKernel {
            router: MeshRouter::new(),
            broadcaster: Broadcaster::new(),
            sessions: SessionManager::new(),
            registry,
        }
    }

    /// A kernel whose one provider, `provider`, is registered as "default"
    /// and marked default.
    pub fn with_provider(provider: P) -> (r: Self)
        ensures
            r.wf(),
            r.components() == Map::<Seq<char>, E>::empty(),
            r.sessions() == Map::<Seq<char>, SessionView>::empty(),
            r.staged() == Seq::<WriteView>::empty(),
            r.tree() == Map::<Seq<char>, Seq<char>>::empty(),
            r.providers() == Map::<Seq<char>, P>::empty().insert("default"@, provider),
            r.default_provider() == Some("default"@),
            r.sent() == Seq::<BroadcastMessage>::empty(),
    {
        Self::new(ProviderRegistry::with_default(provider))
    }

    /// Installs `endpoint` for component `id`, replacing an earlier one.
    pub fn register_component(&mut self, id: String, endpoint: E)
        requires
            old(self).wf(),
        ensures
            final(self).wf(),
            final(self).components() == old(self).components().insert(id@, endpoint),
            final(self).workspace() == old(self).workspace(),
            final(self).providers() == old(self).providers(),
            final(self).default_provider() == old(self).default_provider(),
            final(self).sent() == old(self).sent(),
    {
        self.router.register(id, endpoint);
    }

    /// Where a call to `target` goes; `peer` is the node that cluster
    /// membership named for it, `None` when standalone.
    pub fn route_call(&self, target: &str, peer: Option<NodeInfo>) -> (r: Result<Route<&E>, MeshError>)
        requires
            self.wf(),
        ensures
            match r {
                Ok(Route::Local(e)) => route_spec(self.components(), target@, peer) == Some(
                    Route::Local(*e),
                ),
                Ok(Route::Remote(n)) => route_spec(self.components(), target@, peer) == Some(
                    Route::<E>::Remote(n),
                ),
                Err(err) => route_spec(self.components(), target@, peer) is None && (err matches MeshError::TargetNotFound(s) && s@ == target@),
            },
    {
        self.router.route(target, peer)
    }

    /// The first half of a local call: the endpoint registered for `target`,
    /// and the envelope of the call with the handle its reply will come on.
    /// Fails with `TargetNotFound` when no component has that id.
    pub fn prepare_call(&self, target: &str, method: &str, payload: Payload) -> (r: Result<
        (&E, MeshMessage, oneshot::Receiver<Reply>),
        MeshError,
    >)
        requires
            self.wf(),
        ensures
            match r {
                Ok((e, m, _)) => self.components().contains_key(target@) && *e
                    == self.components()[target@] && m.target@ == target@ && m.method@ == method@
                    && m.payload == payload,
                Err(err) => !self.components().contains_key(target@) && (err matches MeshError::TargetNotFound(s) && s@ == target@),
            },
    {
        match self.router.lookup(target) {
            Some(e) => {
                let (m, rx) = MeshMessage::new(target.to_owned(), method.to_owned(), payload);
                Ok((e, m, rx))
            },
            None => Err(MeshError::TargetNotFound(target.to_owned())),
        }
    }

    /// The store as `scope` sees it, behind the prefix policy.
    pub fn get_store(&self, scope: &str) -> (r: ScopedStore)
        ensures
            r.scope()@ == scope@,
    {
        ScopedStore::new(scope)
    }

    pub fn broadcaster(&self) -> (r: &Broadcaster)
        ensures
            r.sent() == self.sent(),
    {
        &self.broadcaster
    }

    /// A new observer of broadcast patches; it counts as live until dropped.
    pub fn subscribe(&self) -> (r: BroadcastReceiver)
        ensures
            r.skipped() == 0,
    {
        self.broadcaster.subscribe()
    }

    /// Streams `patch` to every observer; succeeds with none listening too.
    pub fn broadcast_patch(&mut self, patch: WsPatch) -> (r: Result<(), WsError>)
        requires
            old(self).wf(),
        ensures
            r is Ok,
            final(self).wf(),
            final(self).sent() == old(self).sent().push(BroadcastMessage::Patch(patch)),
            final(self).components() == old(self).components(),
            final(self).workspace() == old(self).workspace(),
            final(self).providers() == old(self).providers(),
            final(self).default_provider() == old(self).default_provider(),
    {
        self.broadcaster.broadcast(BroadcastMessage::Patch(patch))
    }

    /// Opens a session rooted at `base_path` under a fresh id.
    pub fn begin_session(&mut self, base_path: String) -> (r: Result<String, SessionError>)
        requires
            old(self).wf(),
        ensures
            final(self).wf(),
            match r {
                Ok(id) => begin_spec(old(self).sessions(), id@, base_path@) == Some(final(self).sessions()),
                Err(SessionError::IdInUse(id)) => valid_base_path(base_path@)
                    && old(self).sessions().contains_key(id@) && final(self).sessions() == old(
                    self,
                ).sessions(),
                Err(e) => !valid_base_path(base_path@) && final(self).sessions() == old(self).sessions()
                    && (e matches SessionError::InvalidBasePath(p) && p@ == base_path@),
            },
            final(self).staged() == old(self).staged(),
            final(self).tree() == old(self).tree(),
            final(self).components() == old(self).components(),
            final(self).providers() == old(self).providers(),
            final(self).default_provider() == old(self).default_provider(),
            final(self).sent() == old(self).sent(),
    {
        self.sessions.begin_session(base_path)
    }

    /// Commits open session `session_id`; fails for an id never issued or
    /// already terminal.
    pub fn commit_session(&mut self, session_id: String) -> (r: Result<(), SessionError>)
        requires
            old(self).wf(),
        ensures
            final(self).wf(),
            match finish_spec(old(self).sessions(), session_id@, SessionState::Committed) {
                Some(m) => r is Ok && final(self).sessions() == m && final(self).staged() == others(
                    old(self).staged(),
                    session_id@,
                ) && final(self).tree() == apply_writes(
                    old(self).tree(),
                    old(self).staged(),
                    session_id@,
                ),
                None => final(self).sessions() == old(self).sessions() && final(self).staged() == old(
                    self,
                ).staged() && final(self).tree() == old(self).tree() && (r matches Err(
                    SessionError::UnknownSession(s),
                ) && s@ == session_id@),
            },
            final(self).components() == old(self).components(),
            final(self).providers() == old(self).providers(),
            final(self).default_provider() == old(self).default_provider(),
            final(self).sent() == old(self).sent(),
    {
        self.sessions.commit_session(session_id)
    }

    /// Stages a write of `content` at `path` inside open session
    /// `session_id`; the tree is unchanged until the session commits.
    pub fn stage_write(&mut self, session_id: &str, path: &str, content: String) -> (r: Result<(), SessionError>)
        requires
            old(self).wf(),
        ensures
            final(self).wf(),
            final(self).sessions() == old(self).sessions(),
            final(self).tree() == old(self).tree(),
            if old(self).sessions().contains_key(session_id@) && old(self).sessions()[session_id@].1
                == SessionState::Open {
                r is Ok && final(self).staged() == old(self).staged().push(
                    (
                        session_id@,
                        session_path(old(self).sessions()[session_id@].0, path@),
                        content@,
                    ),
                )
            } else {
                final(self).staged() == old(self).staged() && (r matches Err(
                    SessionError::UnknownSession(s),
                ) && s@ == session_id@)
            },
            final(self).components() == old(self).components(),
            final(self).providers() == old(self).providers(),
            final(self).default_provider() == old(self).default_provider(),
            final(self).sent() == old(self).sent(),
    {
        self.sessions.stage_write(session_id, path, content)
    }

    /// The committed content at `path` in the resource tree.
    pub fn resource(&self, path: &str) -> (r: Option<&String>)
        requires
            self.wf(),
        ensures
            match r {
                Some(c) => self.tree().contains_key(path@) && c@ == self.tree()[path@],
                None => !self.tree().contains_key(path@),
            },
    {
        self.sessions.resource(path)
    }

    pub fn registry(&self) -> (r: &ProviderRegistry<P>)
        requires
            self.wf(),
        ensures
            r.wf(),
            r.providers() == self.providers(),
            r.default_name() == self.default_provider(),
    {
        &self.registry
    }

    /// Adds `provider` under `name`, replacing any earlier one of that name.
    pub fn register_provider(&mut self, name: String, provider: P)
        requires
            old(self).wf(),
        ensures
            final(self).wf(),
            final(self).providers() == old(self).providers().insert(name@, provider),
            final(self).default_provider() == old(self).default_provider(),
            final(self).components() == old(self).components(),
            final(self).workspace() == old(self).workspace(),
            final(self).sent() == old(self).sent(),
    {
        self.registry.register(name, provider);
    }

    /// Marks the provider under `name` as the default.
    pub fn set_default_provider(&mut self, name: String)
        requires
            old(self).wf(),
        ensures
            final(self).wf(),
            final(self).providers() == old(self).providers(),
            final(self).default_provider() == Some(name@),
            final(self).components() == old(self).components(),
            final(self).workspace() == old(self).workspace(),
            final(self).sent() == old(self).sent(),
    {
        self.registry.set_default(name);
    }

    /// The provider registered under `name`.
    pub fn inference_by_name(&self, name: &str) -> (r: Option<&P>)
        requires
            self.wf(),
        ensures
            match r {
                Some(p) => self.providers().contains_key(name@) && *p == self.providers()[name@],
                None => !self.providers().contains_key(name@),
            },
    {
        self.registry.get(name)
    }

    /// The default provider.
    pub fn inference(&self) -> (r: Option<&P>)
        requires
            self.wf(),
        ensures
            match r {
                Some(p) => default_spec(self.providers(), self.default_provider()) == Some(*p),
                None => default_spec(self.providers(), self.default_provider()) is None,
            },
    {
        self.registry.get_default()
    }
}

} // verus!
