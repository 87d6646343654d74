//! Server state management.

use crate::json::{Json, JsonValue, members_view, opt_chars, str_eq};
use crate::protocol::{Implementation, ImplementationView};
use crate::protocol::wire::view_opt;
use crate::utils::text::texts;
use vstd::prelude::*;

verus! {

/// Current server operational state.
#[derive(Debug, Clone, Copy, PartialEq, Eq, Structural)]
pub enum OperationalState {
    /// Server is stopped.
    Stopped,
    /// Server is starting up.
    Starting,
    /// Server is running.
    Running,
    /// Server is shutting down.
    Stopping,
}

/// Server state.
pub struct ServerState {
    /// Current operational state.
    operational_state: OperationalState,
}

impl View for ServerState {
    type V = OperationalState;

    closed spec fn view(&self) -> OperationalState {
        self.operational_state
    }
}

impl ServerState {
    /// Create a new server state.
    pub fn new() -> (s: ServerState)
        ensures
            s@ == OperationalState::Stopped,
    {
        ServerState { operational_state: OperationalState::Stopped }
    }

    /// Get the current operational state.
    pub fn operational_state(&self) -> (o: OperationalState)
        ensures
            o == self@,
    {
        self.operational_state
    }

    /// Set the server state to starting.
    pub fn set_starting(&mut self)
        ensures
            final(self)@ == OperationalState::Starting,
    {
        self.operational_state = OperationalState::Starting;
    }

    /// Set the server state to running.
    pub fn set_running(&mut self)
        ensures
            final(self)@ == OperationalState::Running,
    {
        self.operational_state = OperationalState::Running;
    }

    /// Set the server state to stopping.
    pub fn set_stopping(&mut self)
        ensures
            final(self)@ == OperationalState::Stopping,
    {
        self.operational_state = OperationalState::Stopping;
    }

    /// Set the server state to stopped.
    pub fn set_stopped(&mut self)
        ensures
            final(self)@ == OperationalState::Stopped,
    {
        self.operational_state = OperationalState::Stopped;
    }

    /// Check if the server is stopped.
    pub fn is_stopped(&self) -> (r: bool)
        ensures
            r == (self@ == OperationalState::Stopped),
    {
        self.operational_state == OperationalState::Stopped
    }

    /// Check if the server is starting.
    pub fn is_starting(&self) -> (r: bool)
        ensures
            r == (self@ == OperationalState::Starting),
    {
        self.operational_state == OperationalState::Starting
    }

    /// Check if the server is running.
    pub fn is_running(&self) -> (r: bool)
        ensures
            r == (self@ == OperationalState::Running),
    {
        self.operational_state == OperationalState::Running
    }

    /// Check if the server is stopping.
    pub fn is_stopping(&self) -> (r: bool)
        ensures
            r == (self@ == OperationalState::Stopping),
    {
        self.operational_state == OperationalState::Stopping
    }
}

impl Default for ServerState {
    fn default() -> (s: ServerState)
        ensures
            s@ == OperationalState::Stopped,
    {
        ServerState::new()
    }
}

/// What a connection may be sent and asked, as the handshake settled it.
#[derive(Debug, Clone, PartialEq)]
pub struct CapabilityState {
    /// Whether this connection supports logging.
    pub logging: bool,
    /// Whether this connection supports sampling.
    pub sampling: bool,
    /// Whether this connection supports roots.
    pub roots: bool,
    /// Whether this connection supports roots list changed notifications.
    pub roots_list_changed: bool,
    /// Whether this connection supports prompts list changed notifications.
    pub prompts_list_changed: bool,
    /// Whether this connection supports resources list changed notifications.
    pub resources_list_changed: bool,
    /// Whether this connection supports resource subscriptions.
    pub resources_subscribe: bool,
    /// Whether this connection supports tools list changed notifications.
    pub tools_list_changed: bool,
    /// Experimental capabilities.
    pub experimental: Vec<(String, Json)>,
}

/// The mathematical value of a [`CapabilityState`].
pub struct CapabilityStateView {
    pub logging: bool,
    pub sampling: bool,
    pub roots: bool,
    pub roots_list_changed: bool,
    pub prompts_list_changed: bool,
    pub resources_list_changed: bool,
    pub resources_subscribe: bool,
    pub tools_list_changed: bool,
    pub experimental: Seq<(Seq<char>, JsonValue)>,
}

impl CapabilityStateView {
    /// The capabilities of a connection whose handshake has not happened.
    pub open spec fn none() -> CapabilityStateView {
        CapabilityStateView {
            logging: false,
            sampling: false,
            roots: false,
            roots_list_changed: false,
            prompts_list_changed: false,
            resources_list_changed: false,
            resources_subscribe: false,
            tools_list_changed: false,
            experimental: Seq::empty(),
        }
    }
}

impl View for CapabilityState {
    type V = CapabilityStateView;

    open spec fn view(&self) -> CapabilityStateView {
        CapabilityStateView {
            logging: self.logging,
            sampling: self.sampling,
            roots: self.roots,
            roots_list_changed: self.roots_list_changed,
            prompts_list_changed: self.prompts_list_changed,
            resources_list_changed: self.resources_list_changed,
            resources_subscribe: self.resources_subscribe,
            tools_list_changed: self.tools_list_changed,
            experimental: members_view(self.experimental@),
        }
    }
}

impl Default for CapabilityState {
    fn default() -> (c: CapabilityState)
        ensures
            c@ == CapabilityStateView::none(),
    {
        let c = CapabilityState {
            logging: false,
            sampling: false,
            roots: false,
            roots_list_changed: false,
            prompts_list_changed: false,
            resources_list_changed: false,
            resources_subscribe: false,
            tools_list_changed: false,
            experimental: Vec::new(),
        };
        assert(c@.experimental =~= Seq::empty());
        c
    }
}

/// `uris` without every occurrence of `uri`.
pub open spec fn without(uris: Seq<Seq<char>>, uri: Seq<char>) -> Seq<Seq<char>> {
    uris.filter(|u: Seq<char>| u != uri)
}

/// Client connection state.
#[derive(Debug, Clone, PartialEq)]
pub struct Connection {
    /// Unique client identifier.
    pub id: String,
    /// Is the connection initialized?
    pub initialized: bool,
    /// Client implementation info (available after the handshake).
    pub client_info: Option<Implementation>,
    /// Client protocol version (available after the handshake).
    pub protocol_version: Option<String>,
    /// Client capabilities (available after the handshake).
    pub capabilities: CapabilityState,
    /// Resources this client is subscribed to.
    pub subscribed_resources: Vec<String>,
}

/// The mathematical value of a [`Connection`].
pub struct ConnectionView {
    pub id: Seq<char>,
    pub initialized: bool,
    pub client_info: Option<ImplementationView>,
    pub protocol_version: Option<Seq<char>>,
    pub capabilities: CapabilityStateView,
    pub subscribed_resources: Seq<Seq<char>>,
}

impl View for Connection {
    type V = ConnectionView;

    open spec fn view(&self) -> ConnectionView {
        ConnectionView {
            id: self.id@,
            initialized: self.initialized,
            client_info: view_opt(self.client_info),
            protocol_version: opt_chars(self.protocol_version),
            capabilities: self.capabilities@,
            subscribed_resources: texts(self.subscribed_resources@),
        }
    }
}

impl ConnectionView {
    /// A connection that was just accepted.
    pub open spec fn fresh(id: Seq<char>) -> ConnectionView {
        ConnectionView {
            id,
            initialized: false,
            client_info: None,
            protocol_version: None,
            capabilities: CapabilityStateView::none(),
            subscribed_resources: Seq::empty(),
        }
    }

    /// Whether the `initialize` request of this connection was answered.
    pub open spec fn greeted(self) -> bool {
        self.client_info is Some
    }

    /// The connection with one more subscription; a resource that is
    /// subscribed already is not added again.
    pub open spec fn subscribed(self, uri: Seq<char>) -> ConnectionView {
        if self.subscribed_resources.contains(uri) {
            self
        } else {
            ConnectionView { subscribed_resources: self.subscribed_resources.push(uri), ..self }
        }
    }

    /// The connection without its subscription to `uri`.
    pub open spec fn unsubscribed(self, uri: Seq<char>) -> ConnectionView {
        ConnectionView { subscribed_resources: without(self.subscribed_resources, uri), ..self }
    }
}

impl Connection {
    /// Create a new connection.
    pub fn new(id: &str) -> (c: Connection)
        ensures
            c@ == ConnectionView::fresh(id@),
    {
        let c = Connection {
            id: id.to_owned(),
            initialized: false,
            client_info: None,
            protocol_version: None,
            capabilities: CapabilityState::default(),
            subscribed_resources: Vec::new(),
        };
        assert(c@.subscribed_resources =~= Seq::empty());
        c
    }

    /// Records what the `initialize` request told of the client. The
    /// connection is initialized only once the client has sent
    /// `notifications/initialized`.
    pub fn set_greeted(
        &mut self,
        client_info: Implementation,
        protocol_version: String,
        capabilities: CapabilityState,
    )
        ensures
            final(self)@ == (ConnectionView {
                client_info: Some(client_info@),
                protocol_version: Some(protocol_version@),
                capabilities: capabilities@,
                ..old(self)@
            }),
    {
        self.client_info = Some(client_info);
        self.protocol_version = Some(protocol_version);
        self.capabilities = capabilities;
    }

    /// Set the connection as initialized.
    pub fn set_initialized(
        &mut self,
        client_info: Implementation,
        protocol_version: String,
        capabilities: CapabilityState,
    )
        ensures
            final(self)@ == (ConnectionView {
                initialized: true,
                client_info: Some(client_info@),
                protocol_version: Some(protocol_version@),
                capabilities: capabilities@,
                ..old(self)@
            }),
    {
        self.initialized = true;
        self.client_info = Some(client_info);
        self.protocol_version = Some(protocol_version);
        self.capabilities = capabilities;
    }

    /// Check if subscribed to a resource.
    pub fn is_subscribed_to(&self, uri: &str) -> (r: bool)
        ensures
            r == self@.subscribed_resources.contains(uri@),
    {
        let mut i: usize = 0;
        while i < self.subscribed_resources.len()
            invariant
                i <= self.subscribed_resources.len(),
                forall|k: int| 0 <= k < i ==> self@.subscribed_resources[k] != uri@,
            decreases self.subscribed_resources.len() - i,
        {
            if str_eq(self.subscribed_resources[i].as_str(), uri) {
                assert(self@.subscribed_resources[i as int] == uri@);
                return true;
            }
            i += 1;
        }
        false
    }

    /// Subscribe to a resource.
    pub fn subscribe_resource(&mut self, uri: &str)
        ensures
            final(self)@ == old(self)@.subscribed(uri@),
    {
        if !self.is_subscribed_to(uri) {
            self.subscribed_resources.push(uri.to_owned());
            assert(self@.subscribed_resources =~= old(self)@.subscribed_resources.push(uri@));
        }
    }

    /// Unsubscribe from a resource.
    pub fn unsubscribe_resource(&mut self, uri: &str)
        ensures
            final(self)@ == old(self)@.unsubscribed(uri@),
    {
        let ghost before = self@.subscribed_resources;
        let mut kept: Vec<String> = Vec::new();
        let mut i: usize = 0;
        assert(before.subrange(0, 0) =~= Seq::<Seq<char>>::empty());
        proof {
            lemma_without_empty(uri@);
        }
        while i < self.subscribed_resources.len()
            invariant
                i <= self.subscribed_resources.len(),
                before == texts(self.subscribed_resources@),
                texts(kept@) == without(before.subrange(0, i as int), uri@),
            decreases self.subscribed_resources.len() - i,
        {
            let ghost kept_before = texts(kept@);
            proof {
                lemma_without_push(before.subrange(0, i as int), before[i as int], uri@);
                assert(before.subrange(0, i as int).push(before[i as int]) =~= before.subrange(
                    0,
                    i + 1,
                ));
            }
            if !str_eq(self.subscribed_resources[i].as_str(), uri) {
                kept.push(self.subscribed_resources[i].clone());
                assert(texts(kept@) =~= kept_before.push(before[i as int]));
            }
            i += 1;
        }
        assert(before.subrange(0, i as int) =~= before);
        self.subscribed_resources = kept;
    }
}

/// Nothing is left of the empty list.
pub proof fn lemma_without_empty(uri: Seq<char>)
    ensures
        without(Seq::empty(), uri) == Seq::<Seq<char>>::empty(),
{
    reveal(Seq::filter);
}

/// Removing from a list with one more item keeps the item unless it is the
/// one removed.
pub proof fn lemma_without_push(uris: Seq<Seq<char>>, last: Seq<char>, uri: Seq<char>)
    ensures
        without(uris.push(last), uri) == if last != uri {
            without(uris, uri).push(last)
        } else {
            without(uris, uri)
        },
{
    reveal(Seq::filter);
    assert(uris.push(last).drop_last() =~= uris);
}

/// A resource is subscribed at most once: subscribing keeps a list without
/// repetitions free of them, and after unsubscribing the resource is gone.
pub proof fn lemma_subscriptions(c: ConnectionView, uri: Seq<char>)
    requires
        c.subscribed_resources.no_duplicates(),
    ensures
        c.subscribed(uri).subscribed_resources.no_duplicates(),
        c.subscribed(uri).subscribed_resources.contains(uri),
        !c.unsubscribed(uri).subscribed_resources.contains(uri),
{
    let s = c.subscribed_resources;
    if !s.contains(uri) {
        let t = s.push(uri);
        assert(t[s.len() as int] == uri);
        assert forall|i: int, j: int| 0 <= i < t.len() && 0 <= j < t.len() && i != j implies t[i]
            != t[j] by {
            if i < s.len() && j < s.len() {
            } else if i < s.len() {
                assert(s.contains(s[i]));
            } else if j < s.len() {
                assert(s.contains(s[j]));
            }
        }
    }
    let pred = |u: Seq<char>| u != uri;
    if without(s, uri).contains(uri) {
        let i = choose|i: int| 0 <= i < without(s, uri).len() && without(s, uri)[i] == uri;
        s.lemma_filter_pred(pred, i);
    }
}

} // verus!
