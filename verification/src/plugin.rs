//! Plugin sessions and the registry that holds them.
//!
//! A session binds a plugin's trunk to two logical connections: one carries
//! the calls the plugin makes, the other the calls made to the plugin. The
//! registry holds at most one session per plugin identifier.
//!
//! The registry is an explicit object. Whoever owns it decides how it is
//! shared; nothing here is process-wide.

use vstd::prelude::*;
use vstd::string::StringExecFns;

use crate::error::Error;
use crate::frame::ConnId;
use crate::mux::{
    ConnAction, ConnActionView, Mux, MuxView, Phase, Teardown, TeardownView, TrunkAction,
    TrunkActionView, TrunkEvent,
};
use crate::registry::RegistryView;

verus! {

/// The logical connection that carries the calls made to the plugin.
pub const PLUGIN_SERVICE_CONN: ConnId = 1;

/// The logical connection that carries the calls the plugin makes.
pub const RUNTIME_SERVICE_CONN: ConnId = 2;

/// Mathematical value of a [`Plugin`].
pub ghost struct PluginView<E, C> {
    pub mux: MuxView<E>,
    pub client: C,
    pub timeout: i64,
}

impl<E, C> PluginView<E, C> {
    /// The session that `connect` builds: the mux around `trunk` carries
    /// the two service connections and nothing else, and is reading.
    pub open spec fn wired(trunk: E, wiring: Wiring<E, C>, timeout: i64) -> Self {
        PluginView {
            mux: MuxView {
                trunk: Some(trunk),
                conns: RegistryView::empty().add(PLUGIN_SERVICE_CONN, wiring.plugin_end).add(
                    RUNTIME_SERVICE_CONN,
                    wiring.runtime_end,
                ),
                phase: Phase::AwaitHeader,
            },
            client: wiring.client,
            timeout,
        }
    }

    /// This session after one event of its trunk reader.
    pub open spec fn stepped(self, event: crate::mux::TrunkEventView) -> Self {
        PluginView { mux: self.mux.step(event).0, ..self }
    }
}

/// One connected plugin: its mux, the client for calls to the plugin, and
/// the timeout that every such call is given.
pub struct Plugin<E, C> {
    mux: Mux<E>,
    client: C,
    timeout: i64,
}

impl<E, C> View for Plugin<E, C> {
    type V = PluginView<E, C>;

    closed spec fn view(&self) -> PluginView<E, C> {
        PluginView { mux: self.mux@, client: self.client, timeout: self.timeout }
    }
}

impl<E, C> Plugin<E, C> {
    /// The mux of this session.
    pub fn mux(&self) -> (m: &Mux<E>)
        ensures
            m@ == self@.mux,
    {
        &self.mux
    }

    /// The client for calls to the plugin.
    pub fn client(&self) -> (c: &C)
        ensures
            *c == self@.client,
    {
        &self.client
    }

    /// The timeout that every call to the plugin is given.
    pub fn timeout(&self) -> (t: i64)
        ensures
            t == self@.timeout,
    {
        self.timeout
    }
}

/// What the caller of [`connect`] has set up for a new session.
pub struct Wiring<E, C> {
    /// Local endpoint of the connection that carries the calls to the plugin.
    pub plugin_end: E,
    /// Local endpoint of the connection that carries the plugin's calls.
    pub runtime_end: E,
    /// Client for calls to the plugin, bound to the far side of `plugin_end`.
    pub client: C,
}

/// The loops that the caller of [`connect`] runs for the new session,
/// each with its first action: the reader of the trunk, and the readers of
/// the two local endpoints.
#[derive(Debug)]
pub struct Started<E> {
    pub trunk_reader: TrunkAction<E>,
    pub plugin_reader: ConnAction,
    pub runtime_reader: ConnAction,
}

impl<E> Started<E> {
    /// Whether the trunk reader begins with a header and the connection
    /// readers begin with a read.
    pub open spec fn begins(self) -> bool {
        &&& self.trunk_reader@ == TrunkActionView::<E>::ReadHeader
        &&& self.plugin_reader@ == ConnActionView::Read
        &&& self.runtime_reader@ == ConnActionView::Read
    }
}

/// What is left of a session that has left the registry.
pub struct Disconnected<E, C> {
    /// The client of the session.
    pub client: C,
    /// The streams to shut down, if leaving the registry is what closed the
    /// mux; `None` if the mux was closed before.
    pub teardown: Option<Teardown<E>>,
}

/// Mathematical value of a [`Disconnected`].
pub ghost struct DisconnectedView<E, C> {
    pub client: C,
    pub teardown: Option<TeardownView<E>>,
}

impl<E, C> View for Disconnected<E, C> {
    type V = DisconnectedView<E, C>;

    open spec fn view(&self) -> DisconnectedView<E, C> {
        DisconnectedView {
            client: self.client,
            teardown: match self.teardown {
                Some(streams) => Some(streams@),
                None => None,
            },
        }
    }
}

/// What leaving the registry makes of a session: its mux is closed.
pub open spec fn disconnected<E, C>(p: PluginView<E, C>) -> DisconnectedView<E, C> {
    DisconnectedView { client: p.client, teardown: p.mux.close().1 }
}

/// Mathematical value of a [`PluginRegistry`]: the sessions with their
/// identifiers, oldest first.
pub ghost struct SessionsView<E, C> {
    pub list: Seq<(Seq<char>, PluginView<E, C>)>,
}

impl<E, C> SessionsView<E, C> {
    /// The registry without sessions.
    pub open spec fn empty() -> Self {
        SessionsView { list: Seq::empty() }
    }

    /// No identifier occurs twice, and every mux is valid.
    pub open spec fn valid(self) -> bool {
        &&& forall|i: int, j: int|
            0 <= i < self.list.len() && 0 <= j < self.list.len() && i != j ==> (
            #[trigger] self.list[i]).0 != (#[trigger] self.list[j]).0
        &&& forall|i: int| 0 <= i < self.list.len() ==> (#[trigger] self.list[i]).1.mux.valid()
    }

    /// Whether `id` has a session.
    pub open spec fn contains(self, id: Seq<char>) -> bool {
        exists|i: int| 0 <= i < self.list.len() && (#[trigger] self.list[i]).0 == id
    }

    /// Where the session of `id` stands in the list.
    pub open spec fn index_of(self, id: Seq<char>) -> int {
        choose|i: int| 0 <= i < self.list.len() && (#[trigger] self.list[i]).0 == id
    }

    /// The session of `id`.
    pub open spec fn get(self, id: Seq<char>) -> PluginView<E, C>
        recommends
            self.contains(id),
    {
        self.list[self.index_of(id)].1
    }

    /// The registry with a session added for `id`.
    pub open spec fn insert(self, id: Seq<char>, plugin: PluginView<E, C>) -> Self {
        SessionsView { list: self.list.push((id, plugin)) }
    }

    /// The registry without the session of `id`.
    pub open spec fn remove(self, id: Seq<char>) -> Self {
        if self.contains(id) {
            SessionsView { list: self.list.remove(self.index_of(id)) }
        } else {
            self
        }
    }

    /// The registry with the session of `id` replaced.
    pub open spec fn replace(self, id: Seq<char>, plugin: PluginView<E, C>) -> Self {
        if self.contains(id) {
            SessionsView { list: self.list.update(self.index_of(id), (id, plugin)) }
        } else {
            self
        }
    }

    /// Number of sessions.
    pub open spec fn len(self) -> nat {
        self.list.len()
    }
}

/// In a valid registry a session is found where it stands.
pub proof fn lemma_session_found<E, C>(s: SessionsView<E, C>, i: int)
    requires
        s.valid(),
        0 <= i < s.list.len(),
    ensures
        s.contains(s.list[i].0),
        s.index_of(s.list[i].0) == i,
        s.get(s.list[i].0) == s.list[i].1,
{
    let id = s.list[i].0;
    assert(s.list[s.index_of(id)].0 == id);
}

/// A new session enters a valid registry under an identifier that has
/// none, and every other session stays as it was.
pub proof fn lemma_insert_keeps_others<E, C>(
    s: SessionsView<E, C>,
    id: Seq<char>,
    plugin: PluginView<E, C>,
    other: Seq<char>,
)
    requires
        s.valid(),
        !s.contains(id),
        plugin.mux.valid(),
    ensures
        s.insert(id, plugin).valid(),
        s.insert(id, plugin).contains(id),
        s.insert(id, plugin).get(id) == plugin,
        other != id ==> s.insert(id, plugin).contains(other) == s.contains(other),
        other != id && s.contains(other) ==> s.insert(id, plugin).get(other) == s.get(other),
{
    let n = s.insert(id, plugin);
    let last = s.list.len() as int;
    assert forall|i: int| 0 <= i < last implies (#[trigger] n.list[i]) == s.list[i] by {}
    assert(n.list[last] == (id, plugin));
    assert forall|i: int, j: int|
        0 <= i < n.list.len() && 0 <= j < n.list.len() && i != j implies (#[trigger] n.list[i]).0
        != (#[trigger] n.list[j]).0 by {
        if i < last {
            assert(s.list[i].0 == n.list[i].0);
        }
        if j < last {
            assert(s.list[j].0 == n.list[j].0);
        }
    }
    lemma_session_found(n, last);
    if other != id {
        if s.contains(other) {
            let k = s.index_of(other);
            assert(s.list[k].0 == other);
            assert(n.list[k] == s.list[k]);
            lemma_session_found(n, k);
        }
        if n.contains(other) {
            let k = n.index_of(other);
            assert(n.list[k].0 == other);
            assert(s.list[k].0 == other);
        }
    }
}

/// Once a session is removed its identifier has none, and every other
/// session stays as it was.
pub proof fn lemma_remove_keeps_others<E, C>(s: SessionsView<E, C>, id: Seq<char>, other: Seq<char>)
    requires
        s.valid(),
    ensures
        s.remove(id).valid(),
        !s.remove(id).contains(id),
        other != id ==> s.remove(id).contains(other) == s.contains(other),
        other != id && s.contains(other) ==> s.remove(id).get(other) == s.get(other),
{
    if s.contains(id) {
        let at = s.index_of(id);
        assert(s.list[at].0 == id);
        let n = s.remove(id);
        let back = |k: int| if k < at { k } else { k + 1 };
        assert forall|k: int| 0 <= k < n.list.len() implies (#[trigger] n.list[k]) == s.list[back(
            k,
        )] by {}
        assert forall|i: int, j: int|
            0 <= i < n.list.len() && 0 <= j < n.list.len() && i != j implies (
        #[trigger] n.list[i]).0 != (#[trigger] n.list[j]).0 by {
            assert(n.list[i] == s.list[back(i)]);
            assert(n.list[j] == s.list[back(j)]);
        }
        assert forall|k: int| 0 <= k < n.list.len() implies (#[trigger] n.list[k]).1.mux.valid() by {
            assert(n.list[k] == s.list[back(k)]);
        }
        if n.contains(id) {
            let k = n.index_of(id);
            assert(n.list[k].0 == id);
            assert(n.list[k] == s.list[back(k)]);
        }
        if other != id {
            if s.contains(other) {
                let k = s.index_of(other);
                assert(s.list[k].0 == other);
                let k1 = if k < at { k } else { k - 1 };
                assert(n.list[k1] == s.list[back(k1)]);
                lemma_session_found(n, k1);
            }
            if n.contains(other) {
                let k = n.index_of(other);
                assert(n.list[k].0 == other);
                assert(n.list[k] == s.list[back(k)]);
            }
        }
    }
}

/// A session that is replaced keeps its identifier, and every other
/// session stays as it was.
pub proof fn lemma_replace_keeps_others<E, C>(
    s: SessionsView<E, C>,
    id: Seq<char>,
    plugin: PluginView<E, C>,
    other: Seq<char>,
)
    requires
        s.valid(),
        plugin.mux.valid(),
    ensures
        s.replace(id, plugin).valid(),
        s.replace(id, plugin).contains(id) == s.contains(id),
        s.contains(id) ==> s.replace(id, plugin).get(id) == plugin,
        other != id ==> s.replace(id, plugin).contains(other) == s.contains(other),
        other != id && s.contains(other) ==> s.replace(id, plugin).get(other) == s.get(other),
{
    if s.contains(id) {
        let at = s.index_of(id);
        assert(s.list[at].0 == id);
        let n = s.replace(id, plugin);
        assert forall|k: int| 0 <= k < n.list.len() implies (#[trigger] n.list[k]).0
            == s.list[k].0 by {}
        assert forall|i: int, j: int|
            0 <= i < n.list.len() && 0 <= j < n.list.len() && i != j implies (
        #[trigger] n.list[i]).0 != (#[trigger] n.list[j]).0 by {
            assert(n.list[i].0 == s.list[i].0);
            assert(n.list[j].0 == s.list[j].0);
        }
        assert forall|k: int| 0 <= k < n.list.len() implies (#[trigger] n.list[k]).1.mux.valid() by {
            if k != at {
                assert(n.list[k] == s.list[k]);
            }
        }
        lemma_session_found(n, at);
        if other != id {
            if s.contains(other) {
                let k = s.index_of(other);
                assert(s.list[k].0 == other);
                assert(n.list[k] == s.list[k]);
                lemma_session_found(n, k);
            }
            if n.contains(other) {
                let k = n.index_of(other);
                assert(n.list[k].0 == other);
                assert(s.list[k].0 == other);
            }
        }
    }
}

struct Entry<E, C> {
    id: String,
    plugin: Plugin<E, C>,
}

/// Holds the sessions of the connected plugins, one per identifier.
///
/// The sessions stand in a list, oldest first, and are found by comparing
/// identifiers, so that nothing rests on how strings hash.
pub struct PluginRegistry<E, C> {
    entries: Vec<Entry<E, C>>,
}

impl<E, C> View for PluginRegistry<E, C> {
    type V = SessionsView<E, C>;

    closed spec fn view(&self) -> SessionsView<E, C> {
        listed(self.entries@)
    }
}

/// The sessions that `entries` hold.
spec fn listed<E, C>(entries: Seq<Entry<E, C>>) -> SessionsView<E, C> {
    SessionsView { list: Seq::new(entries.len(), |i: int| (entries[i].id@, entries[i].plugin@)) }
}

impl<E, C> PluginRegistry<E, C> {
    #[verifier::type_invariant]
    spec fn well_formed(self) -> bool {
        self@.valid()
    }

    /// A registry without sessions.
    pub fn new() -> (r: Self)
        ensures
            r@ == SessionsView::<E, C>::empty(),
            r@.valid(),
    {
        let r = PluginRegistry { entries: Vec::new() };
        assert(r@.list =~= Seq::empty());
        r
    }

    /// Number of sessions.
    pub fn len(&self) -> (n: usize)
        ensures
            n == self@.len(),
    {
        self.entries.len()
    }

    /// Whether `plugin_id` has a session.
    pub fn contains(&self, plugin_id: &String) -> (b: bool)
        ensures
            self@.valid(),
            b == self@.contains(plugin_id@),
    {
        self.position(plugin_id).is_some()
    }

    /// Where the session of `plugin_id` stands, if it has one.
    fn position(&self, plugin_id: &String) -> (r: Option<usize>)
        ensures
            self@.valid(),
            r is Some <==> self@.contains(plugin_id@),
            r matches Some(i) ==> i == self@.index_of(plugin_id@) && i < self.entries@.len()
                && self.entries@[i as int].id@ == plugin_id@,
    {
        proof {
            use_type_invariant(self);
        }
        let mut i: usize = 0;
        while i < self.entries.len()
            invariant
                i <= self.entries@.len(),
                self@.valid(),
                forall|j: int| 0 <= j < i ==> (#[trigger] self@.list[j]).0 != plugin_id@,
            decreases self.entries@.len() - i,
        {
            if self.entries[i].id == *plugin_id {
                assert(self@.list[i as int].0 == plugin_id@);
                assert(self@.list[self@.index_of(plugin_id@)].0 == plugin_id@);
                return Some(i);
            }
            i += 1;
        }
        None
    }
}

/// The address of the service that takes the calls of plugin `plugin_id`:
/// a name of its own in the abstract socket namespace.
pub open spec fn spec_runtime_socket_addr(plugin_id: Seq<char>) -> Seq<char> {
    "/var/run/nri/"@ + plugin_id + ".sock"@
}

/// The address of the service that takes the calls of plugin `plugin_id`:
/// a name of its own in the abstract socket namespace.
pub fn runtime_socket_addr(plugin_id: &str) -> (addr: String)
    ensures
        addr@ == spec_runtime_socket_addr(plugin_id@),
{
    "/var/run/nri/".to_string().concat(plugin_id).concat(".sock")
}

/// The address `addr` of the abstract socket namespace, as the RPC layer
/// wants it written when it binds a service.
pub fn abstract_socket_url(addr: &str) -> (url: String)
    ensures
        url@ == "unix://@"@ + addr@,
{
    "unix://@".to_string().concat(addr)
}

/// The steps by which the caller of [`connect`] sets a session up.
#[derive(Clone, Copy, Debug, PartialEq, Eq, Structural)]
pub enum WiringStep {
    /// Making the pair of connected local endpoints.
    SocketPair,
    /// Binding the service that takes the plugin's calls.
    BindService,
    /// Building the client for calls to the plugin.
    BuildClient,
    /// Starting the service that takes the plugin's calls.
    StartService,
    /// Connecting to that service.
    ConnectRuntime,
}

impl WiringStep {
    /// The kind of error that a failure of this step is reported as.
    pub open spec fn error_kind(self) -> crate::error::ErrorKind {
        match self {
            WiringStep::SocketPair => crate::error::ErrorKind::IOError,
            WiringStep::BindService => crate::error::ErrorKind::Other,
            WiringStep::BuildClient => crate::error::ErrorKind::TransportError,
            WiringStep::StartService => crate::error::ErrorKind::Other,
            WiringStep::ConnectRuntime => crate::error::ErrorKind::IOError,
        }
    }

    /// The message that reports a failure of this step for `cause`.
    pub open spec fn error_message(self, cause: Seq<char>) -> Seq<char> {
        match self {
            WiringStep::SocketPair => "create socket pair error: "@ + cause,
            WiringStep::BindService => "Bind error: "@ + cause,
            WiringStep::BuildClient => "create client error: "@ + cause,
            WiringStep::StartService => "start error: "@ + cause,
            WiringStep::ConnectRuntime => "connect runtime service error"@,
        }
    }

    /// Whether the service was running when this step failed, so that it
    /// has to be shut down.
    pub open spec fn spec_service_started(self) -> bool {
        self is ConnectRuntime
    }

    /// Whether the service was running when this step failed, so that it
    /// has to be shut down.
    #[verifier::when_used_as_spec(spec_service_started)]
    pub fn service_started(self) -> (b: bool)
        ensures
            b == self.spec_service_started(),
    {
        match self {
            WiringStep::ConnectRuntime => true,
            _ => false,
        }
    }
}

/// A step of the set-up that failed, and why.
#[derive(Debug)]
pub struct WiringFailure {
    pub step: WiringStep,
    pub cause: String,
}

/// Whether `e` reports `failure`.
pub open spec fn reports(e: Error, failure: WiringFailure) -> bool {
    e.spec_kind() == failure.step.error_kind() && e.spec_message() == failure.step.error_message(
        failure.cause@,
    )
}

/// The error that reports a failed step of the set-up.
pub fn wiring_error(failure: WiringFailure) -> (e: Error)
    ensures
        reports(e, failure),
{
    let WiringFailure { step, cause } = failure;
    match step {
        WiringStep::SocketPair => Error::IOError(
            "create socket pair error: ".to_string().concat(cause.as_str()),
        ),
        WiringStep::BindService => Error::Other("Bind error: ".to_string().concat(cause.as_str())),
        WiringStep::BuildClient => Error::TransportError(
            "create client error: ".to_string().concat(cause.as_str()),
        ),
        WiringStep::StartService => Error::Other(
            "start error: ".to_string().concat(cause.as_str()),
        ),
        WiringStep::ConnectRuntime => Error::IOError("connect runtime service error".to_string()),
    }
}

/// Whether [`connect`] made `after` of `before` and returned `r`, given
/// what the caller's set-up came to: the wired session entered the
/// registry, or the registry stayed as it was and `r` reports the failure.
pub open spec fn connected<E, C>(
    before: SessionsView<E, C>,
    after: SessionsView<E, C>,
    id: Seq<char>,
    trunk: E,
    timeout: i64,
    wired: Result<Wiring<E, C>, WiringFailure>,
    r: Result<Started<E>, Error>,
) -> bool {
    match wired {
        Ok(wiring) => r is Ok && r->Ok_0.begins() && after == before.insert(
            id,
            PluginView::wired(trunk, wiring, timeout),
        ),
        Err(failure) => r is Err && reports(r->Err_0, failure) && after == before,
    }
}

/// Opens the session of `plugin_id` over `trunk`.
///
/// If the plugin already has a session, fails with `InvalidArgument` and
/// does nothing else: `wire` is not called, and need not even be callable
/// then. Otherwise calls `wire`, which sets up the local
/// endpoints and the client, step by step. If a step fails, `wire` undoes
/// what it did and says which step it was; the error for that step is
/// returned (see [`WiringStep`]) and the registry stays as it was. If
/// `wire` succeeds, a mux is built around `trunk`,
/// the endpoints are registered as [`PLUGIN_SERVICE_CONN`] and
/// [`RUNTIME_SERVICE_CONN`], the trunk reader is started, and the session
/// enters the registry; the caller then runs the loops that are returned:
/// the trunk reader and one connection reader for each endpoint.
pub fn connect<E, C, F>(
    plugins: &mut PluginRegistry<E, C>,
    plugin_id: &String,
    trunk: E,
    timeout: i64,
    wire: F,
) -> (r: Result<Started<E>, Error>) where F: FnOnce() -> Result<Wiring<E, C>, WiringFailure>
    requires
        !old(plugins)@.contains(plugin_id@) ==> call_requires(wire, ()),
    ensures
        old(plugins)@.valid(),
        final(plugins)@.valid(),
        old(plugins)@.contains(plugin_id@) ==> r is Err && r->Err_0 is InvalidArgument
            && final(plugins)@ == old(plugins)@,
        !old(plugins)@.contains(plugin_id@) ==> exists|wired: Result<Wiring<E, C>, WiringFailure>|
            #[trigger] call_ensures(wire, (), wired) && connected(
                old(plugins)@,
                final(plugins)@,
                plugin_id@,
                trunk,
                timeout,
                wired,
                r,
            ),
{
    if plugins.contains(plugin_id) {
        return Err(Error::InvalidArgument("plugin is already connected".to_string()));
    }
    let wired = wire();
    match wired {
        Err(failure) => {
            let e = wiring_error(failure);
            assert(connected(
                plugins@,
                plugins@,
                plugin_id@,
                trunk,
                timeout,
                wired,
                Err::<Started<E>, Error>(e),
            ));
            Err(e)
        },
        Ok(wiring) => {
            let Wiring { plugin_end, runtime_end, client } = wiring;
            // A fresh mux accepts both identifiers.
            let mut mux = Mux::new(trunk);
            let plugin_reader = match mux.add_conn(PLUGIN_SERVICE_CONN, plugin_end) {
                Ok(action) => action,
                Err(_) => ConnAction::Stop,
            };
            let runtime_reader = match mux.add_conn(RUNTIME_SERVICE_CONN, runtime_end) {
                Ok(action) => action,
                Err(_) => ConnAction::Stop,
            };
            let trunk_reader = mux.trunk_reader();
            let plugin = Plugin { mux, client, timeout };
            let ghost before = plugins@;
            let mut entries: Vec<Entry<E, C>> = Vec::new();
            core::mem::swap(&mut plugins.entries, &mut entries);
            entries.push(Entry { id: plugin_id.clone(), plugin });
            proof {
                assert(listed(entries@).list =~= before.insert(plugin_id@, plugin@).list);
                lemma_insert_keeps_others(before, plugin_id@, plugin@, plugin_id@);
            }
            plugins.entries = entries;
            assert(call_ensures(wire, (), wired));
            Ok(Started { trunk_reader, plugin_reader, runtime_reader })
        },
    }
}

/// Ends the session of `plugin_id`, if it has one.
///
/// The session leaves the registry and its mux is closed; what is left of
/// it is returned for the caller to shut down. A plugin without a session
/// is no error: nothing happens and `None` is returned, so that
/// disconnecting twice is safe.
pub fn disconnect<E, C>(plugins: &mut PluginRegistry<E, C>, plugin_id: &String) -> (r: Option<
    Disconnected<E, C>,
>)
    ensures
        old(plugins)@.valid(),
        final(plugins)@.valid(),
        final(plugins)@ == old(plugins)@.remove(plugin_id@),
        !final(plugins)@.contains(plugin_id@),
        old(plugins)@.contains(plugin_id@) ==> r is Some && r->Some_0@ == disconnected(
            old(plugins)@.get(plugin_id@),
        ),
        !old(plugins)@.contains(plugin_id@) ==> r is None,
{
    match plugins.position(plugin_id) {
        None => None,
        Some(i) => {
            let ghost before = plugins@;
            let mut entries: Vec<Entry<E, C>> = Vec::new();
            core::mem::swap(&mut plugins.entries, &mut entries);
            let entry = entries.remove(i);
            proof {
                assert(listed(entries@).list =~= before.remove(plugin_id@).list);
                lemma_remove_keeps_others(before, plugin_id@, plugin_id@);
            }
            plugins.entries = entries;
            let Entry { id: _, plugin } = entry;
            let Plugin { mut mux, client, timeout: _ } = plugin;
            Some(Disconnected { client, teardown: mux.close() })
        },
    }
}

/// The session of `plugin_id`, or `NotFound` if it has none.
pub fn plugin_get<'a, E, C>(plugins: &'a PluginRegistry<E, C>, plugin_id: &String) -> (r: Result<
    &'a Plugin<E, C>,
    Error,
>)
    ensures
        plugins@.valid(),
        plugins@.contains(plugin_id@) ==> r is Ok && r->Ok_0@ == plugins@.get(plugin_id@),
        !plugins@.contains(plugin_id@) ==> r is Err && r->Err_0 is NotFound,
{
    match plugins.position(plugin_id) {
        Some(i) => Ok(&plugins.entries[i].plugin),
        None => Err(Error::NotFound("client not found".to_string())),
    }
}

/// Advances the trunk reader of `plugin_id` by one event.
///
/// A plugin without a session has no trunk to read: the answer is `Stop`
/// and nothing changes.
pub fn trunk_step<E, C>(
    plugins: &mut PluginRegistry<E, C>,
    plugin_id: &String,
    event: TrunkEvent,
) -> (action: TrunkAction<E>)
    ensures
        old(plugins)@.valid(),
        final(plugins)@.valid(),
        old(plugins)@.contains(plugin_id@) ==> final(plugins)@ == old(plugins)@.replace(
            plugin_id@,
            old(plugins)@.get(plugin_id@).stepped(event@),
        ) && action@ == old(plugins)@.get(plugin_id@).mux.step(event@).1,
        !old(plugins)@.contains(plugin_id@) ==> final(plugins)@ == old(plugins)@ && action@
            == TrunkActionView::<E>::Stop,
{
    match plugins.position(plugin_id) {
        None => TrunkAction::Stop,
        Some(i) => {
            let ghost before = plugins@;
            let mut entries: Vec<Entry<E, C>> = Vec::new();
            core::mem::swap(&mut plugins.entries, &mut entries);
            let entry = entries.remove(i);
            let Entry { id, plugin } = entry;
            let Plugin { mut mux, client, timeout } = plugin;
            let action = mux.trunk_step(event);
            entries.insert(i, Entry { id, plugin: Plugin { mux, client, timeout } });
            proof {
                let stepped = before.get(plugin_id@).stepped(event@);
                assert(listed(entries@).list =~= before.replace(plugin_id@, stepped).list);
                lemma_replace_keeps_others(before, plugin_id@, stepped, plugin_id@);
            }
            plugins.entries = entries;
            action
        },
    }
}

/// Ends every session.
///
/// The registry is left empty. The sessions are returned oldest first, each
/// as [`disconnect`] would have returned it.
pub fn runtime_service_destroy<E, C>(plugins: &mut PluginRegistry<E, C>) -> (ended: Vec<
    Disconnected<E, C>,
>)
    ensures
        old(plugins)@.valid(),
        final(plugins)@ == SessionsView::<E, C>::empty(),
        ended@.len() == old(plugins)@.len(),
        forall|i: int|
            0 <= i < ended@.len() ==> (#[trigger] ended@[i])@ == disconnected(
                old(plugins)@.list[i].1,
            ),
{
    proof {
        use_type_invariant(&*plugins);
    }
    let ghost before = plugins@;
    let mut entries: Vec<Entry<E, C>> = Vec::new();
    core::mem::swap(&mut plugins.entries, &mut entries);
    assert(plugins@.list =~= Seq::empty());
    let mut ended: Vec<Disconnected<E, C>> = Vec::new();
    while entries.len() > 0
        invariant
            ended@.len() + entries@.len() == before.list.len(),
            forall|i: int|
                0 <= i < ended@.len() ==> (#[trigger] ended@[i])@ == disconnected(
                    before.list[i].1,
                ),
            forall|k: int|
                0 <= k < entries@.len() ==> (#[trigger] entries@[k]).plugin@ == before.list[k
                    + ended@.len()].1,
        decreases entries@.len(),
    {
        let entry = entries.remove(0);
        let Entry { id: _, plugin } = entry;
        let Plugin { mut mux, client, timeout: _ } = plugin;
        ended.push(Disconnected { client, teardown: mux.close() });
    }
    ended
}

/// Name of the service that a plugin offers.
pub const PLUGIN_SERVICE: &'static str = "nri.pkg.api.v1alpha1.Plugin";

/// Name of the service that the runtime offers to plugins.
pub const RUNTIME_SERVICE: &'static str = "nri.pkg.api.v1alpha1.Runtime";

/// The calls that are forwarded to a plugin.
#[derive(Clone, Copy, Debug, PartialEq, Eq, Structural)]
pub enum RpcOp {
    Configure,
    Synchronize,
    Shutdown,
    CreateContainer,
    UpdateContainer,
    StopContainer,
    StateChange,
}

impl RpcOp {
    /// The name of the method of [`PLUGIN_SERVICE`] that this call invokes.
    pub open spec fn spec_method(self) -> Seq<char> {
        match self {
            RpcOp::Configure => "Configure"@,
            RpcOp::Synchronize => "Synchronize"@,
            RpcOp::Shutdown => "Shutdown"@,
            RpcOp::CreateContainer => "CreateContainer"@,
            RpcOp::UpdateContainer => "UpdateContainer"@,
            RpcOp::StopContainer => "StopContainer"@,
            RpcOp::StateChange => "StateChange"@,
        }
    }

    /// The name of the method of [`PLUGIN_SERVICE`] that this call invokes.
    pub fn method(self) -> (s: &'static str)
        ensures
            s@ == self.spec_method(),
    {
        match self {
            RpcOp::Configure => "Configure",
            RpcOp::Synchronize => "Synchronize",
            RpcOp::Shutdown => "Shutdown",
            RpcOp::CreateContainer => "CreateContainer",
            RpcOp::UpdateContainer => "UpdateContainer",
            RpcOp::StopContainer => "StopContainer",
            RpcOp::StateChange => "StateChange",
        }
    }

    /// How the message of a transport error of this call begins. A failed
    /// update is reported as a failure to start the container.
    pub open spec fn spec_label(self) -> Seq<char> {
        match self {
            RpcOp::Configure => "configure error: "@,
            RpcOp::Synchronize => "synchronize error: "@,
            RpcOp::Shutdown => "shutdown error: "@,
            RpcOp::CreateContainer => "create container error: "@,
            RpcOp::UpdateContainer => "start container error: "@,
            RpcOp::StopContainer => "stop container error: "@,
            RpcOp::StateChange => "state change error: "@,
        }
    }

    /// How the message of a transport error of this call begins.
    pub fn label(self) -> (s: &'static str)
        ensures
            s@ == self.spec_label(),
    {
        match self {
            RpcOp::Configure => "configure error: ",
            RpcOp::Synchronize => "synchronize error: ",
            RpcOp::Shutdown => "shutdown error: ",
            RpcOp::CreateContainer => "create container error: ",
            RpcOp::UpdateContainer => "start container error: ",
            RpcOp::StopContainer => "stop container error: ",
            RpcOp::StateChange => "state change error: ",
        }
    }
}

/// Whether `e` is the transport error of `op` that wraps `cause`.
pub open spec fn wraps(e: Error, op: RpcOp, cause: Seq<char>) -> bool {
    e is TransportError && e.spec_message() == op.spec_label() + cause
}

/// The error that reports a failure of the RPC layer during `op`.
pub fn transport_error(op: RpcOp, cause: &str) -> (e: Error)
    ensures
        wraps(e, op, cause@),
{
    Error::TransportError(op.label().to_string().concat(cause))
}

/// The context of a call, as the RPC layer takes it: how long to wait for
/// the answer, in nanoseconds, and the metadata to send along.
#[verifier::external_type_specification]
pub struct ExContext(ttrpc::context::Context);

/// Calls `ttrpc::context::with_timeout`. Taken on trust from its source:
/// the context it returns has the timeout it was given and no metadata.
#[verifier::external_body]
fn context_with_timeout(timeout: i64) -> (context: ttrpc::context::Context)
    ensures
        context.timeout_nano == timeout,
        context.metadata@.is_empty(),
{
    ttrpc::context::with_timeout(timeout)
}

/// A call that is ready to be made: which call, on which client, and in
/// which context.
///
/// The caller makes the call. A caller that shares the registry lets go of
/// it first, with its own handle on the client: the answer reaches the
/// client over the session's trunk, and the trunk reader needs the registry
/// to deliver it. What the client answered is then handed to [`relay`].
pub struct Call<'a, C> {
    pub op: RpcOp,
    pub client: &'a C,
    pub context: ttrpc::context::Context,
}

/// Whether `r` is what preparing `op` for `plugin_id` returns: `NotFound`
/// if the plugin has no session, else the call on the session's client, in
/// a context with the session's timeout and no metadata.
pub open spec fn prepares<E, C>(
    plugins: SessionsView<E, C>,
    plugin_id: Seq<char>,
    op: RpcOp,
    r: Result<Call<C>, Error>,
) -> bool {
    if plugins.contains(plugin_id) {
        &&& r is Ok
        &&& r->Ok_0.op == op
        &&& *r->Ok_0.client == plugins.get(plugin_id).client
        &&& r->Ok_0.context.timeout_nano == plugins.get(plugin_id).timeout
        &&& r->Ok_0.context.metadata@.is_empty()
    } else {
        r is Err && r->Err_0 is NotFound
    }
}

/// Prepares the call `op` to the plugin `plugin_id`.
pub fn prepare<'a, E, C>(plugins: &'a PluginRegistry<E, C>, plugin_id: &String, op: RpcOp) -> (r:
    Result<Call<'a, C>, Error>)
    ensures
        prepares(plugins@, plugin_id@, op, r),
{
    match plugin_get(plugins, plugin_id) {
        Err(e) => Err(e),
        Ok(plugin) => Ok(
            Call { op, client: plugin.client(), context: context_with_timeout(plugin.timeout()) },
        ),
    }
}

/// Whether `r` is what becomes of `answer`, the client's answer to `op`:
/// the response itself, or the transport error wrapping the cause.
pub open spec fn relays<R>(op: RpcOp, answer: Result<R, String>, r: Result<R, Error>) -> bool {
    match answer {
        Ok(response) => r == Ok::<R, Error>(response),
        Err(cause) => r is Err && wraps(r->Err_0, op, cause@),
    }
}

/// Turns the client's answer to `op` into the result of the call. A
/// failure does not touch the session: it stays in the registry.
pub fn relay<R>(op: RpcOp, answer: Result<R, String>) -> (r: Result<R, Error>)
    ensures
        relays(op, answer, r),
{
    match answer {
        Ok(response) => Ok(response),
        Err(cause) => Err(transport_error(op, cause.as_str())),
    }
}

/// Prepares the call that asks the plugin to configure itself.
///
/// Fails with `NotFound` if `plugin_id` has no session.
pub fn configure<'a, E, C>(plugins: &'a PluginRegistry<E, C>, plugin_id: &String) -> (r: Result<
    Call<'a, C>,
    Error,
>)
    ensures
        prepares(plugins@, plugin_id@, RpcOp::Configure, r),
{
    prepare(plugins, plugin_id, RpcOp::Configure)
}

/// Prepares the call that sends the plugin the state of the runtime.
///
/// Fails with `NotFound` if `plugin_id` has no session.
pub fn synchronize<'a, E, C>(plugins: &'a PluginRegistry<E, C>, plugin_id: &String) -> (r: Result<
    Call<'a, C>,
    Error,
>)
    ensures
        prepares(plugins@, plugin_id@, RpcOp::Synchronize, r),
{
    prepare(plugins, plugin_id, RpcOp::Synchronize)
}

/// Prepares the call that tells the plugin to shut down.
///
/// Fails with `NotFound` if `plugin_id` has no session.
pub fn shutdown<'a, E, C>(plugins: &'a PluginRegistry<E, C>, plugin_id: &String) -> (r: Result<
    Call<'a, C>,
    Error,
>)
    ensures
        prepares(plugins@, plugin_id@, RpcOp::Shutdown, r),
{
    prepare(plugins, plugin_id, RpcOp::Shutdown)
}

/// Prepares the call that tells the plugin of a container being created.
///
/// Fails with `NotFound` if `plugin_id` has no session.
pub fn create_container<'a, E, C>(plugins: &'a PluginRegistry<E, C>, plugin_id: &String) -> (r: Result<
    Call<'a, C>,
    Error,
>)
    ensures
        prepares(plugins@, plugin_id@, RpcOp::CreateContainer, r),
{
    prepare(plugins, plugin_id, RpcOp::CreateContainer)
}

/// Prepares the call that tells the plugin of a container being updated.
///
/// Fails with `NotFound` if `plugin_id` has no session.
pub fn update_container<'a, E, C>(plugins: &'a PluginRegistry<E, C>, plugin_id: &String) -> (r: Result<
    Call<'a, C>,
    Error,
>)
    ensures
        prepares(plugins@, plugin_id@, RpcOp::UpdateContainer, r),
{
    prepare(plugins, plugin_id, RpcOp::UpdateContainer)
}

/// Prepares the call that tells the plugin of a container being stopped.
///
/// Fails with `NotFound` if `plugin_id` has no session.
pub fn stop_container<'a, E, C>(plugins: &'a PluginRegistry<E, C>, plugin_id: &String) -> (r: Result<
    Call<'a, C>,
    Error,
>)
    ensures
        prepares(plugins@, plugin_id@, RpcOp::StopContainer, r),
{
    prepare(plugins, plugin_id, RpcOp::StopContainer)
}

/// Prepares the call that tells the plugin of a change of state.
///
/// Fails with `NotFound` if `plugin_id` has no session.
pub fn state_change<'a, E, C>(plugins: &'a PluginRegistry<E, C>, plugin_id: &String) -> (r: Result<
    Call<'a, C>,
    Error,
>)
    ensures
        prepares(plugins@, plugin_id@, RpcOp::StateChange, r),
{
    prepare(plugins, plugin_id, RpcOp::StateChange)
}

/// The callbacks through which the calls of the plugins reach the runtime.
/// `R` handles the registration of a plugin, `U` an update of containers.
pub struct RuntimeCallbacks<R, U> {
    pub register_plugin: Option<R>,
    pub update_containers: Option<U>,
}

impl<R, U> RuntimeCallbacks<R, U> {
    /// Whether at least one callback is set.
    pub open spec fn any_set(self) -> bool {
        self.register_plugin is Some || self.update_containers is Some
    }

    /// Whether both callbacks are set.
    pub open spec fn all_set(self) -> bool {
        self.register_plugin is Some && self.update_containers is Some
    }

    /// No callback set: the runtime service is not initialized.
    pub fn unset() -> (c: Self)
        ensures
            !c.any_set(),
    {
        RuntimeCallbacks { register_plugin: None, update_containers: None }
    }
}

/// Why [`runtime_service_init`] refuses, if it does.
pub open spec fn init_refusal<R, U>(
    current: RuntimeCallbacks<R, U>,
    callbacks: RuntimeCallbacks<R, U>,
) -> Option<crate::error::ErrorKind> {
    if current.any_set() {
        Some(crate::error::ErrorKind::AlreadyStarted)
    } else if !callbacks.all_set() {
        Some(crate::error::ErrorKind::InvalidArgument)
    } else {
        None
    }
}

/// Initializes the runtime service with its callbacks.
///
/// Refused, with `current` left as it was: `AlreadyStarted` when a callback
/// is set already; otherwise `InvalidArgument` when one of the new
/// callbacks is missing.
pub fn runtime_service_init<R, U>(
    current: &mut RuntimeCallbacks<R, U>,
    callbacks: RuntimeCallbacks<R, U>,
) -> (r: Result<(), Error>)
    ensures
        match init_refusal(*old(current), callbacks) {
            Some(kind) => r is Err && r->Err_0.spec_kind() == kind && *final(current) == *old(
                current,
            ),
            None => r is Ok && *final(current) == callbacks,
        },
{
    if current.register_plugin.is_some() || current.update_containers.is_some() {
        return Err(Error::AlreadyStarted("runtime service already initialized".to_string()));
    }
    if callbacks.register_plugin.is_none() || callbacks.update_containers.is_none() {
        return Err(Error::InvalidArgument("callbacks not set".to_string()));
    }
    *current = callbacks;
    Ok(())
}

/// The calls that a plugin makes to the runtime.
#[derive(Clone, Copy, Debug, PartialEq, Eq, Structural)]
pub enum RuntimeCall {
    RegisterPlugin,
    UpdateContainers,
}

impl RuntimeCall {
    /// The name of the method of [`RUNTIME_SERVICE`] that makes this call.
    pub open spec fn spec_method(self) -> Seq<char> {
        match self {
            RuntimeCall::RegisterPlugin => "RegisterPlugin"@,
            RuntimeCall::UpdateContainers => "UpdateContainers"@,
        }
    }

    /// The name of the method of [`RUNTIME_SERVICE`] that makes this call.
    pub fn method(self) -> (s: &'static str)
        ensures
            s@ == self.spec_method(),
    {
        match self {
            RuntimeCall::RegisterPlugin => "RegisterPlugin",
            RuntimeCall::UpdateContainers => "UpdateContainers",
        }
    }

    /// The name of this call in messages.
    pub open spec fn spec_name(self) -> Seq<char> {
        match self {
            RuntimeCall::RegisterPlugin => "register plugin"@,
            RuntimeCall::UpdateContainers => "update containers"@,
        }
    }

    /// The name of this call in messages.
    pub fn name(self) -> (s: &'static str)
        ensures
            s@ == self.spec_name(),
    {
        match self {
            RuntimeCall::RegisterPlugin => "register plugin",
            RuntimeCall::UpdateContainers => "update containers",
        }
    }
}

/// What the message of a failed runtime call says.
pub open spec fn callback_failure(call: RuntimeCall, plugin_id: Seq<char>, status: Option<i32>) -> Seq<
    char,
> {
    match status {
        None => call.spec_name() + " callback not registered"@,
        Some(_) => call.spec_name() + " for "@ + plugin_id + " failed"@,
    }
}

/// Judges a call that plugin `plugin_id` made to the runtime.
///
/// `status` is what the callback for the call returned, or `None` if no
/// such callback is set. The call succeeded exactly when a callback
/// returned zero; every other outcome is an error of kind `Other`.
pub fn callback_result(call: RuntimeCall, plugin_id: &str, status: Option<i32>) -> (r: Result<
    (),
    Error,
>)
    ensures
        r is Ok <==> status == Some(0i32),
        r matches Err(e) ==> e is Other && e.spec_message() == callback_failure(
            call,
            plugin_id@,
            status,
        ),
{
    match status {
        Some(0) => Ok(()),
        Some(_) => Err(
            Error::Other(
                call.name().to_string().concat(" for ").concat(plugin_id).concat(" failed"),
            ),
        ),
        None => Err(Error::Other(call.name().to_string().concat(" callback not registered"))),
    }
}

} // verus!
