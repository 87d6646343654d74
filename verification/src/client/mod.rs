//! The client side of a session.
//!
//! [`Client`] is the client engine without its transport: it decides, and
//! whoever drives it sends what it hands out and feeds it what arrives.
//! Requests are handed out by [`Client::send_request`] and the functions
//! named after the protocol's operations; incoming messages go through
//! [`Client::handle_message`].

pub mod builder;
pub mod handler;
pub mod pending;
pub mod requests;
pub mod results;
pub mod state;

pub use crate::client::builder::ClientBuilder;
pub use crate::protocol::resources::ResourceContent;

use crate::client::pending::{expires, CorrelationTable, PendingRequest, PendingView};
use crate::client::requests::{
    Call, completion_params, Feature, lemma_gate_of_method, named_params, uri_params,
};
use crate::client::state::{ClientState, ConnectionState};
use crate::error::Error;
use crate::json::{
    Json, JsonValue, members_view, Number, opt_chars, opt_view, push_opt, put, put_bool,
    put_opt_str, put_str, str_eq,
};
use crate::protocol::{
    IdView, Implementation, ImplementationView, LATEST_PROTOCOL_VERSION, ProgressToken, RequestId,
};
use crate::protocol::json_rpc::{
    JSONRPCMessage, JSONRPCNotification, JSONRPCRequest, MessageView, NotificationView, RequestView,
};
use crate::protocol::logging::LoggingLevel;
use crate::protocol::prompts::string_map_value;
use crate::protocol::wire::{member, put_value, required, Wire};
use crate::utils::ids::fresh_uuid;
use crate::utils::text::{decimal, decimal_string};
use vstd::prelude::*;
use vstd::string::StringExecFns;

verus! {

/// Client capability flags.
#[derive(Debug, Clone, PartialEq)]
pub struct ClientCapabilities {
    /// Whether the client supports listing roots.
    pub roots: bool,
    /// Whether the client supports notifications for changes to the roots list.
    pub roots_list_changed: bool,
    /// Whether the client supports sampling from an LLM.
    pub sampling: bool,
    /// Experimental capabilities.
    pub experimental: Vec<String>,
}

impl Default for ClientCapabilities {
    fn default() -> (c: ClientCapabilities)
        ensures
            !c.roots,
            !c.roots_list_changed,
            !c.sampling,
            c.experimental@.len() == 0,
    {
        ClientCapabilities {
            roots: false,
            roots_list_changed: false,
            sampling: false,
            experimental: Vec::new(),
        }
    }
}

/// MCP client options.
#[derive(Debug, Clone, PartialEq)]
pub struct ClientOptions {
    /// Client implementation info.
    pub implementation: Implementation,
    /// Client capabilities.
    pub capabilities: ClientCapabilities,
    /// Automatically acknowledge roots list changed notifications.
    pub auto_acknowledge_roots_changed: bool,
    /// Default timeout for requests in milliseconds (0 = no timeout).
    pub default_timeout_ms: u64,
}

impl Default for ClientOptions {
    fn default() -> (o: ClientOptions)
        ensures
            o.implementation@ == (ImplementationView { name: "mcpx-client"@, version: "0.1.0"@ }),
            !o.capabilities.roots,
            !o.capabilities.roots_list_changed,
            !o.capabilities.sampling,
            o.capabilities.experimental@.len() == 0,
            o.auto_acknowledge_roots_changed,
            o.default_timeout_ms == 30000,
    {
        ClientOptions {
            implementation: Implementation::new("mcpx-client", "0.1.0"),
            capabilities: ClientCapabilities::default(),
            auto_acknowledge_roots_changed: true,
            default_timeout_ms: 30000,
        }
    }
}

/// Server capabilities, as the client has read them from the handshake.
#[derive(Debug, Clone, PartialEq)]
pub struct ServerCapabilities {
    /// Whether the server supports sending log messages.
    pub logging: bool,
    /// Whether the server supports completions.
    pub completions: bool,
    /// Whether the server supports prompts.
    pub prompts: bool,
    /// Whether the server supports prompts list changed notifications.
    pub prompts_list_changed: bool,
    /// Whether the server supports resources.
    pub resources: bool,
    /// Whether the server supports resource list changed notifications.
    pub resources_list_changed: bool,
    /// Whether the server supports resource subscriptions.
    pub resources_subscribe: bool,
    /// Whether the server supports tools.
    pub tools: bool,
    /// Whether the server supports tool list changed notifications.
    pub tools_list_changed: bool,
    /// Experimental capabilities.
    pub experimental: Vec<String>,
}

/// The mathematical value of the server capabilities.
pub struct ServerCapabilitiesView {
    pub logging: bool,
    pub completions: bool,
    pub prompts: bool,
    pub prompts_list_changed: bool,
    pub resources: bool,
    pub resources_list_changed: bool,
    pub resources_subscribe: bool,
    pub tools: bool,
    pub tools_list_changed: bool,
    pub experimental: Seq<Seq<char>>,
}

impl View for ServerCapabilities {
    type V = ServerCapabilitiesView;

    open spec fn view(&self) -> ServerCapabilitiesView {
        ServerCapabilitiesView {
            logging: self.logging,
            completions: self.completions,
            prompts: self.prompts,
            prompts_list_changed: self.prompts_list_changed,
            resources: self.resources,
            resources_list_changed: self.resources_list_changed,
            resources_subscribe: self.resources_subscribe,
            tools: self.tools,
            tools_list_changed: self.tools_list_changed,
            experimental: Seq::new(
                self.experimental@.len(),
                |i: int| self.experimental@[i]@,
            ),
        }
    }
}

/// Whether a capabilities object offers the feature under `key`: the member
/// is there and is neither `null` nor `false`.
pub open spec fn offers(j: JsonValue, key: Seq<char>) -> bool {
    match j.get(key) {
        None => false,
        Some(JsonValue::Null) => false,
        Some(JsonValue::Bool(b)) => b,
        Some(_) => true,
    }
}

/// The flag `flag` nested under the feature `key`; `false` when either is
/// missing or the flag is no boolean.
pub open spec fn nested_flag(j: JsonValue, key: Seq<char>, flag: Seq<char>) -> bool {
    match j.get(key) {
        Some(feature) => match feature.get(flag) {
            Some(JsonValue::Bool(b)) => b,
            _ => false,
        },
        None => false,
    }
}

impl ServerCapabilitiesView {
    /// The capabilities that a `capabilities` object of an `initialize`
    /// result advertises.
    pub open spec fn decode(j: JsonValue) -> ServerCapabilitiesView {
        ServerCapabilitiesView {
            logging: offers(j, "logging"@),
            completions: offers(j, "completions"@),
            prompts: offers(j, "prompts"@),
            prompts_list_changed: nested_flag(j, "prompts"@, "listChanged"@),
            resources: offers(j, "resources"@),
            resources_list_changed: nested_flag(j, "resources"@, "listChanged"@),
            resources_subscribe: nested_flag(j, "resources"@, "subscribe"@),
            tools: offers(j, "tools"@),
            tools_list_changed: nested_flag(j, "tools"@, "listChanged"@),
            experimental: match j.get("experimental"@) {
                Some(e) => e.keys(),
                None => Seq::empty(),
            },
        }
    }
}

/// Whether a capabilities object offers the feature under `key`.
fn read_offer(j: &Json, key: &str) -> (r: bool)
    ensures
        r == offers(j@, key@),
{
    match j.get(key) {
        None => false,
        Some(v) => match v {
            Json::Null => false,
            Json::Bool(b) => *b,
            _ => true,
        },
    }
}

/// The flag `flag` nested under the feature `key`.
fn read_nested_flag(j: &Json, key: &str, flag: &str) -> (r: bool)
    ensures
        r == nested_flag(j@, key@, flag@),
{
    match j.get(key) {
        Some(feature) => match feature.get(flag) {
            Some(v) => match v.as_bool() {
                Some(b) => b,
                None => false,
            },
            None => false,
        },
        None => false,
    }
}

/// The keys of an object, in member order; empty for other documents.
pub fn keys_of(j: &Json) -> (keys: Vec<String>)
    ensures
        Seq::new(keys@.len(), |i: int| keys@[i]@) == j@.keys(),
{
    let mut keys: Vec<String> = Vec::new();
    match j.as_object() {
        Some(members) => {
            let mut i: usize = 0;
            while i < members.len()
                invariant
                    i <= members.len(),
                    keys.len() == i,
                    forall|k: int| 0 <= k < i ==> keys@[k]@ == members@[k].0@,
                decreases members.len() - i,
            {
                keys.push(members[i].0.clone());
                i += 1;
            }
            assert(Seq::new(keys@.len(), |i: int| keys@[i]@) =~= j@.keys());
        },
        None => {
            assert(Seq::new(keys@.len(), |i: int| keys@[i]@) =~= j@.keys());
        },
    }
    keys
}

impl ServerCapabilities {
    /// Reads the capabilities that a `capabilities` object advertises.
    pub fn from_json(j: &Json) -> (c: ServerCapabilities)
        ensures
            c@ == ServerCapabilitiesView::decode(j@),
    {
        let experimental = match j.get("experimental") {
            Some(e) => keys_of(e),
            None => Vec::new(),
        };
        let c = ServerCapabilities {
            logging: read_offer(j, "logging"),
            completions: read_offer(j, "completions"),
            prompts: read_offer(j, "prompts"),
            prompts_list_changed: read_nested_flag(j, "prompts", "listChanged"),
            resources: read_offer(j, "resources"),
            resources_list_changed: read_nested_flag(j, "resources", "listChanged"),
            resources_subscribe: read_nested_flag(j, "resources", "subscribe"),
            tools: read_offer(j, "tools"),
            tools_list_changed: read_nested_flag(j, "tools", "listChanged"),
            experimental,
        };
        assert(c@.experimental =~= ServerCapabilitiesView::decode(j@).experimental);
        c
    }

    /// A copy of the capabilities.
    pub fn duplicate(&self) -> (c: ServerCapabilities)
        ensures
            c@ == self@,
    {
        let mut experimental: Vec<String> = Vec::new();
        let mut i: usize = 0;
        while i < self.experimental.len()
            invariant
                i <= self.experimental.len(),
                experimental.len() == i,
                forall|k: int| 0 <= k < i ==> experimental@[k]@ == self.experimental@[k]@,
            decreases self.experimental.len() - i,
        {
            experimental.push(self.experimental[i].clone());
            i += 1;
        }
        let c = ServerCapabilities {
            logging: self.logging,
            completions: self.completions,
            prompts: self.prompts,
            prompts_list_changed: self.prompts_list_changed,
            resources: self.resources,
            resources_list_changed: self.resources_list_changed,
            resources_subscribe: self.resources_subscribe,
            tools: self.tools,
            tools_list_changed: self.tools_list_changed,
            experimental,
        };
        assert(c@.experimental =~= self@.experimental);
        c
    }
}

/// Reference type for completions.
#[derive(Debug, Clone, Copy, PartialEq, Eq, Structural)]
pub enum CompletionReferenceType {
    /// Reference to a prompt.
    Prompt,
    /// Reference to a resource.
    Resource,
}

/// An event that can be emitted by the client.
#[derive(Debug, Clone, PartialEq)]
pub enum ClientEvent {
    /// Connected to server.
    Connected {
        /// Server implementation info.
        server_info: Implementation,
        /// Server protocol version, as the server gave it: it may differ
        /// from the version that the client proposed.
        protocol_version: String,
        /// Server capabilities.
        capabilities: ServerCapabilities,
        /// Server instructions (if any).
        instructions: Option<String>,
    },
    /// Disconnected from server.
    Disconnected {
        /// Reason for disconnection.
        reason: String,
    },
    /// Resources list changed.
    ResourcesChanged,
    /// Prompts list changed.
    PromptsChanged,
    /// Tools list changed.
    ToolsChanged,
    /// Roots list changed.
    RootsChanged,
    /// Resource updated.
    ResourceUpdated {
        /// URI of the updated resource.
        uri: String,
    },
    /// Log message received.
    LogMessage {
        /// Severity level.
        level: LoggingLevel,
        /// Logger name (if any).
        logger: Option<String>,
        /// Log data.
        data: Json,
    },
    /// Progress update for a request.
    Progress {
        /// Request ID.
        request_id: RequestId,
        /// Progress token.
        token: ProgressToken,
        /// Current progress.
        progress: Number,
        /// Total progress (if known).
        total: Option<Number>,
        /// Progress message (if any).
        message: Option<String>,
    },
    /// Error occurred.
    Error {
        /// Error details.
        error: Error,
    },
}

/// The mathematical value of a [`ClientEvent`].
pub enum ClientEventView {
    Connected {
        server_info: ImplementationView,
        protocol_version: Seq<char>,
        capabilities: ServerCapabilitiesView,
        instructions: Option<Seq<char>>,
    },
    Disconnected { reason: Seq<char> },
    ResourcesChanged,
    PromptsChanged,
    ToolsChanged,
    RootsChanged,
    ResourceUpdated { uri: Seq<char> },
    LogMessage { level: LoggingLevel, logger: Option<Seq<char>>, data: JsonValue },
    Progress {
        request_id: IdView,
        token: IdView,
        progress: Number,
        total: Option<Number>,
        message: Option<Seq<char>>,
    },
    Error { error: Error },
}

impl View for ClientEvent {
    type V = ClientEventView;

    open spec fn view(&self) -> ClientEventView {
        match self {
            ClientEvent::Connected {
                server_info,
                protocol_version,
                capabilities,
                instructions,
            } => ClientEventView::Connected {
                server_info: server_info@,
                protocol_version: protocol_version@,
                capabilities: capabilities@,
                instructions: opt_chars(*instructions),
            },
            ClientEvent::Disconnected { reason } => ClientEventView::Disconnected {
                reason: reason@,
            },
            ClientEvent::ResourcesChanged => ClientEventView::ResourcesChanged,
            ClientEvent::PromptsChanged => ClientEventView::PromptsChanged,
            ClientEvent::ToolsChanged => ClientEventView::ToolsChanged,
            ClientEvent::RootsChanged => ClientEventView::RootsChanged,
            ClientEvent::ResourceUpdated { uri } => ClientEventView::ResourceUpdated { uri: uri@ },
            ClientEvent::LogMessage { level, logger, data } => ClientEventView::LogMessage {
                level: *level,
                logger: opt_chars(*logger),
                data: data@,
            },
            ClientEvent::Progress {
                request_id,
                token,
                progress,
                total,
                message,
            } => ClientEventView::Progress {
                request_id: request_id@,
                token: token@,
                progress: *progress,
                total: *total,
                message: opt_chars(*message),
            },
            ClientEvent::Error { error } => ClientEventView::Error { error: *error },
        }
    }
}

impl ClientEventView {
    /// Whether the event records a handshake in which the server answered
    /// with another protocol version than the latest one.
    pub open spec fn version_mismatch(self) -> bool {
        self matches ClientEventView::Connected { protocol_version, .. } && protocol_version
            != "2025-03-26"@
    }
}

impl ClientEvent {
    /// Whether the event records a handshake in which the server answered
    /// with another protocol version than the latest one. The session is
    /// connected all the same.
    pub fn version_mismatch(&self) -> (r: bool)
        ensures
            r == self@.version_mismatch(),
    {
        match self {
            ClientEvent::Connected { protocol_version, .. } => !str_eq(
                protocol_version.as_str(),
                LATEST_PROTOCOL_VERSION,
            ),
            _ => false,
        }
    }
}

/// The capabilities object that a client with these flags sends: `sampling`
/// when it samples, `roots` with its `listChanged` flag when it lists roots.
pub open spec fn client_capabilities_value(caps: ClientCapabilities) -> JsonValue {
    let m = Seq::empty();
    let m = push_opt(
        m,
        "sampling"@,
        if caps.sampling {
            Some(JsonValue::empty_object())
        } else {
            None
        },
    );
    let m = push_opt(
        m,
        "roots"@,
        if caps.roots {
            Some(
                JsonValue::Object(
                    Seq::empty().push(("listChanged"@, JsonValue::Bool(caps.roots_list_changed))),
                ),
            )
        } else {
            None
        },
    );
    JsonValue::Object(m)
}

/// The `initialize` request of a client with these options: the id is
/// `"init"`, the version the latest one.
pub open spec fn initialize_request(options: ClientOptions) -> RequestView {
    RequestView {
        jsonrpc: "2.0"@,
        id: IdView::String("init"@),
        method: "initialize"@,
        params: Some(
            JsonValue::Object(
                Seq::empty().push(("protocolVersion"@, JsonValue::Str("2025-03-26"@))).push(
                    ("clientInfo"@, Implementation::encode(options.implementation@)),
                ).push(("capabilities"@, client_capabilities_value(options.capabilities))),
            ),
        ),
    }
}

/// The `notifications/initialized` notification.
pub open spec fn initialized_notification() -> NotificationView {
    NotificationView { jsonrpc: "2.0"@, method: "notifications/initialized"@, params: None }
}

/// What the result of `initialize` tells of the server.
pub struct ServerHelloView {
    pub server_info: ImplementationView,
    pub protocol_version: Seq<char>,
    pub capabilities: ServerCapabilitiesView,
    pub instructions: Option<Seq<char>>,
}

impl ServerHelloView {
    /// Reads the result of `initialize`: `serverInfo` and `protocolVersion`
    /// are required, `capabilities` and `instructions` are read as far as
    /// they are there.
    pub open spec fn decode(result: JsonValue) -> Option<ServerHelloView> {
        match (member::<Implementation>(result, "serverInfo"@), result.get_str("protocolVersion"@)) {
            (Some(server_info), Some(protocol_version)) => Some(
                ServerHelloView {
                    server_info,
                    protocol_version,
                    capabilities: match result.get("capabilities"@) {
                        Some(c) => ServerCapabilitiesView::decode(c),
                        None => ServerCapabilitiesView::decode(JsonValue::Null),
                    },
                    instructions: result.get_str("instructions"@),
                },
            ),
            _ => None,
        }
    }

    /// The event that announces the handshake.
    pub open spec fn event(self) -> ClientEventView {
        ClientEventView::Connected {
            server_info: self.server_info,
            protocol_version: self.protocol_version,
            capabilities: self.capabilities,
            instructions: self.instructions,
        }
    }
}

/// What the client does when the handshake completes: it sends the
/// notification, then emits the event.
#[derive(Debug, Clone, PartialEq)]
pub struct Handshake {
    /// The `notifications/initialized` notification to send.
    pub notification: JSONRPCNotification,
    /// The `Connected` event to emit.
    pub event: ClientEvent,
}

/// What the client does when a request is cancelled locally.
#[derive(Debug, Clone, PartialEq)]
pub struct Cancellation {
    /// The `notifications/cancelled` notification to send.
    pub notification: JSONRPCNotification,
    /// The slot of the request, if it was outstanding: its waiter is handed
    /// the error.
    pub pending: Option<PendingRequest>,
    /// The `Cancelled` error, with the reason that was given.
    pub error: Error,
}

/// What the client does when the session ends.
#[derive(Debug, Clone, PartialEq)]
pub struct Disconnection {
    /// The requests that were outstanding, each once: their waiters are
    /// handed the error.
    pub failed: Vec<RequestId>,
    /// The `ConnectionClosed` error, with the reason of the disconnection.
    pub error: Error,
    /// The `Disconnected` event to emit.
    pub event: ClientEvent,
}

/// The deadline of a request made at `now` under the given timeout: no
/// deadline when the timeout is zero.
pub open spec fn deadline_after(now: u64, timeout_ms: u64) -> u64 {
    if timeout_ms == 0 || now + timeout_ms > u64::MAX {
        u64::MAX
    } else {
        (now + timeout_ms) as u64
    }
}

/// The text of the error that a request gets when its deadline passes.
pub open spec fn timeout_message(timeout_ms: u64) -> Seq<char> {
    "Request timed out after "@ + decimal(timeout_ms as nat) + " ms"@
}

/// The parameters of `notifications/cancelled`.
pub open spec fn cancelled_params(id: IdView, reason: Option<Seq<char>>) -> JsonValue {
    JsonValue::Object(
        push_opt(
            Seq::empty().push(("requestId"@, id.encode())),
            "reason"@,
            match reason {
                Some(r) => Some(JsonValue::Str(r)),
                None => None,
            },
        ),
    )
}

/// MCP client session.
pub struct Client {
    /// Unique client identifier.
    id: String,
    /// Client state.
    state: ClientState,
    /// Pending requests.
    pending: CorrelationTable,
    /// Client options.
    options: ClientOptions,
    /// Server capabilities (available after initialization).
    server_capabilities: Option<ServerCapabilities>,
}

/// What `issue` and the operations built on it promise: the session changes
/// only by the new slot; a request with the given method and parameters is
/// handed out exactly when the session is initialized, the server offers the
/// feature that gates the method, and the id is not in flight. An operation
/// that draws its own id can fail on the id only while some request is
/// outstanding: with an empty table it succeeds.
pub open spec fn issued(
    before: Client,
    after: Client,
    method: Seq<char>,
    params: Option<JsonValue>,
    now: u64,
    r: Result<JSONRPCRequest, Error>,
) -> bool {
    &&& after.wf()
    &&& after.state() == before.state()
    &&& after.capabilities() == before.capabilities()
    &&& after.options() == before.options()
    &&& after.identity() == before.identity()
    &&& match r {
        Ok(request) => {
            &&& before.state() is Initialized
            &&& before.server_offers(Feature::of_method(method))
            &&& request@ == (RequestView { jsonrpc: "2.0"@, id: request.id@, method, params })
            &&& !before.pending().contains_key(request.id@)
            &&& after.pending() == before.pending().insert(
                request.id@,
                PendingView {
                    method,
                    deadline: deadline_after(now, before.options().default_timeout_ms),
                },
            )
        },
        Err(e) => {
            &&& after.pending() == before.pending()
            &&& if !(before.state() is Initialized) {
                e is NotInitialized
            } else if !before.server_offers(Feature::of_method(method)) {
                e matches Error::UnsupportedFeature(m) && m@ == Feature::of_method(method).name()
            } else {
                &&& e is InternalError
                &&& exists|k: IdView| #[trigger] before.pending().contains_key(k)
            }
        },
    }
}

impl Client {
    /// The invariant of a session: requests are outstanding only while
    /// the session is initializing or initialized, and the capabilities of
    /// the server are known exactly while the session is initialized.
    pub closed spec fn wf(&self) -> bool {
        &&& forall|id: IdView| self.pending@.contains_key(id) ==> self.state@.is_live()
        &&& self.state@ is Initialized <==> self.server_capabilities is Some
    }

    /// The connection state.
    pub closed spec fn state(&self) -> ConnectionState {
        self.state@
    }

    /// The correlation table.
    pub closed spec fn pending(&self) -> Map<IdView, PendingView> {
        self.pending@
    }

    /// The capabilities of the server, once the handshake is done.
    pub closed spec fn capabilities(&self) -> Option<ServerCapabilitiesView> {
        match self.server_capabilities {
            Some(c) => Some(c@),
            None => None,
        }
    }

    /// The options that the client was made with.
    pub closed spec fn options(&self) -> ClientOptions {
        self.options
    }

    /// Whether a request with this method may be made in the current state:
    /// `initialize` while initializing, every other once initialized.
    pub open spec fn ready_for(&self, method: Seq<char>) -> bool {
        if method == "initialize"@ {
            self.state() is Initializing
        } else {
            self.state() is Initialized
        }
    }

    /// Whether the server offers the feature.
    pub open spec fn server_offers(&self, feature: Feature) -> bool {
        self.capabilities() matches Some(caps) && feature.offered_by(caps)
    }

    /// Create a new client with the given options.
    pub fn new(options: ClientOptions) -> (c: Client)
        ensures
            c.wf(),
            c.state() is Disconnected,
            c.pending() == Map::<IdView, PendingView>::empty(),
            c.capabilities() is None,
            c.options() == options,
    {
        Client {
            id: fresh_uuid(),
            state: ClientState::new(),
            pending: CorrelationTable::new(),
            options,
            server_capabilities: None,
        }
    }

    /// The identifier that the client was given when it was made.
    pub closed spec fn identity(&self) -> Seq<char> {
        self.id@
    }

    /// Get the client ID.
    pub fn id(&self) -> (id: &str)
        ensures
            id@ == self.identity(),
    {
        self.id.as_str()
    }

    /// Get the current connection state.
    pub fn connection_state(&self) -> (s: ConnectionState)
        ensures
            s == self.state(),
    {
        self.state.connection_state()
    }

    /// The capabilities of the server, once the handshake is done.
    pub fn server_capabilities(&self) -> (c: Option<&ServerCapabilities>)
        ensures
            match c {
                Some(caps) => self.capabilities() == Some(caps@),
                None => self.capabilities() is None,
            },
    {
        self.server_capabilities.as_ref()
    }

    /// The options that the client was made with.
    pub fn options_ref(&self) -> (o: &ClientOptions)
        ensures
            *o == self.options(),
    {
        &self.options
    }

    /// Removes the slot of `id` so that its outcome can be delivered.
    pub(crate) fn complete(&mut self, id: &RequestId) -> (slot: Option<PendingRequest>)
        requires
            old(self).wf(),
        ensures
            final(self).wf(),
            final(self).state() == old(self).state(),
            final(self).capabilities() == old(self).capabilities(),
            final(self).options() == old(self).options(),
            final(self).identity() == old(self).identity(),
            final(self).pending() == old(self).pending().remove(id@),
            match slot {
                Some(s) => old(self).pending().contains_key(id@) && old(self).pending()[id@]
                    == s@,
                None => !old(self).pending().contains_key(id@),
            },
    {
        self.pending.complete(id)
    }

    /// Whether a request with this id is outstanding. While any request is
    /// outstanding the session is initializing or initialized.
    pub fn is_pending(&self, id: &RequestId) -> (r: bool)
        requires
            self.wf(),
        ensures
            r == self.pending().contains_key(id@),
            r ==> self.state().is_live(),
    {
        self.pending.contains(id)
    }

    /// Starts to connect: a disconnected session becomes connecting. Returns
    /// whether the transport has to be connected.
    pub fn connect(&mut self) -> (r: bool)
        requires
            old(self).wf(),
        ensures
            final(self).wf(),
            old(self).state().may_become(final(self).state()),
            r == (old(self).state() is Disconnected),
            final(self).state() == if r {
                ConnectionState::Connecting
            } else {
                old(self).state()
            },
            final(self).pending() == old(self).pending(),
            final(self).capabilities() == old(self).capabilities(),
            final(self).options() == old(self).options(),
            final(self).identity() == old(self).identity(),
    {
        if self.state.is_disconnected() {
            self.state.set_connecting();
            true
        } else {
            false
        }
    }

    /// The `initialize` request of this client.
    pub fn initialize_request(&self) -> (r: JSONRPCRequest)
        ensures
            r@ == initialize_request(self.options()),
    {
        let mut capabilities: Vec<(String, Json)> = Vec::new();
        assert(members_view(capabilities@) =~= Seq::empty());
        if self.options.capabilities.sampling {
            put(&mut capabilities, "sampling", Json::empty_object());
        }
        if self.options.capabilities.roots {
            let mut roots: Vec<(String, Json)> = Vec::new();
            assert(members_view(roots@) =~= Seq::empty());
            put_bool(&mut roots, "listChanged", self.options.capabilities.roots_list_changed);
            put(&mut capabilities, "roots", Json::object(roots));
        }
        let mut params: Vec<(String, Json)> = Vec::new();
        assert(members_view(params@) =~= Seq::empty());
        put_str(&mut params, "protocolVersion", LATEST_PROTOCOL_VERSION);
        put_value(&mut params, "clientInfo", &self.options.implementation);
        put(&mut params, "capabilities", Json::object(capabilities));
        JSONRPCRequest::new(RequestId::from_str("init"), "initialize", Some(Json::object(params)))
    }

    /// The transport is up: a connecting session becomes initializing and
    /// the `initialize` request is handed out, with its slot in the
    /// correlation table. In any other state nothing happens.
    pub fn initialize(&mut self, now: u64) -> (r: Option<JSONRPCRequest>)
        requires
            old(self).wf(),
        ensures
            final(self).wf(),
            old(self).state().may_become(final(self).state()),
            final(self).capabilities() == old(self).capabilities(),
            final(self).options() == old(self).options(),
            final(self).identity() == old(self).identity(),
            match r {
                Some(request) => {
                    &&& old(self).state() is Connecting
                    &&& final(self).state() is Initializing
                    &&& request@ == initialize_request(old(self).options())
                    &&& final(self).pending() == old(self).pending().insert(
                        IdView::String("init"@),
                        PendingView {
                            method: "initialize"@,
                            deadline: deadline_after(now, old(self).options().default_timeout_ms),
                        },
                    )
                },
                None => {
                    &&& !(old(self).state() is Connecting)
                    &&& final(self).state() == old(self).state()
                    &&& final(self).pending() == old(self).pending()
                },
            },
    {
        if !self.state.is_connecting() {
            return None;
        }
        let request = self.initialize_request();
        let deadline = deadline(now, self.options.default_timeout_ms);
        self.state.set_initializing();
        let _ = self.pending.register(request.id.duplicate(), "initialize", deadline);
        Some(request)
    }

    /// The response to `initialize` has arrived. A response that carries the
    /// server's identity and version completes the handshake: the session
    /// becomes initialized, the capabilities are kept, and the notification
    /// and the event are handed out. An error response, another message, or
    /// a result without identity or version leaves the session as it was.
    pub fn complete_initialize(&mut self, response: JSONRPCMessage) -> (r: Result<Handshake, Error>)
        requires
            old(self).wf(),
        ensures
            final(self).wf(),
            old(self).state().may_become(final(self).state()),
            final(self).pending() == old(self).pending(),
            final(self).options() == old(self).options(),
            final(self).identity() == old(self).identity(),
            match r {
                Ok(handshake) => {
                    &&& old(self).state() is Initializing
                    &&& response@ matches MessageView::Response(resp)
                    &&& ServerHelloView::decode(resp.result) matches Some(hello)
                    &&& handshake.event@ == hello.event()
                    &&& handshake.notification@ == initialized_notification()
                    &&& final(self).state() is Initialized
                    &&& final(self).capabilities() == Some(hello.capabilities)
                },
                Err(e) => {
                    &&& final(self).state() == old(self).state()
                    &&& final(self).capabilities() == old(self).capabilities()
                    &&& if !(old(self).state() is Initializing) {
                        e is NotInitialized
                    } else {
                        match response@ {
                            MessageView::Response(resp) => {
                                ServerHelloView::decode(resp.result) is None && e is ParseError
                            },
                            MessageView::Error(err) => {
                                e matches Error::ServerError(code, message, data) && code
                                    == err.error.code && message@ == err.error.message
                                    && opt_view(data) == err.error.data
                            },
                            _ => e is ProtocolError,
                        }
                    }
                },
            },
    {
        if !self.state.is_initializing() {
            return Err(Error::NotInitialized);
        }
        let result = result_of(response)?;
        let server_info = required::<Implementation>(&result, "serverInfo")?;
        let protocol_version = match result.get_str("protocolVersion") {
            Some(v) => v.to_owned(),
            None => {
                return Err(Error::parse("Missing protocolVersion"));
            },
        };
        let instructions = match result.get_str("instructions") {
            Some(v) => Some(v.to_owned()),
            None => None,
        };
        let capabilities = match result.get("capabilities") {
            Some(c) => ServerCapabilities::from_json(c),
            None => ServerCapabilities::from_json(&Json::Null),
        };
        self.server_capabilities = Some(capabilities.duplicate());
        self.state.set_initialized();
        Ok(
            Handshake {
                notification: JSONRPCNotification::new("notifications/initialized", None),
                event: ClientEvent::Connected {
                    server_info,
                    protocol_version,
                    capabilities,
                    instructions,
                },
            },
        )
    }

    /// Registers a request that is about to be sent. The request is refused,
    /// and nothing must be sent, when the session is not ready for its
    /// method (`NotInitialized`), when the server does not offer the feature
    /// that gates the method (`UnsupportedFeature`), or when its id is
    /// already in flight (`InternalError`).
    pub fn send_request(&mut self, request: &JSONRPCRequest, now: u64) -> (r: Result<(), Error>)
        requires
            old(self).wf(),
        ensures
            final(self).wf(),
            final(self).state() == old(self).state(),
            final(self).capabilities() == old(self).capabilities(),
            final(self).options() == old(self).options(),
            final(self).identity() == old(self).identity(),
            match r {
                Ok(_) => {
                    &&& old(self).ready_for(request.method@)
                    &&& request.method@ != "initialize"@ ==> old(self).server_offers(
                        Feature::of_method(request.method@),
                    )
                    &&& !old(self).pending().contains_key(request.id@)
                    &&& final(self).pending() == old(self).pending().insert(
                        request.id@,
                        PendingView {
                            method: request.method@,
                            deadline: deadline_after(now, old(self).options().default_timeout_ms),
                        },
                    )
                },
                Err(e) => {
                    &&& final(self).pending() == old(self).pending()
                    &&& if !old(self).ready_for(request.method@) {
                        e is NotInitialized
                    } else if request.method@ != "initialize"@ && !old(self).server_offers(
                        Feature::of_method(request.method@),
                    ) {
                        e matches Error::UnsupportedFeature(m) && m@ == Feature::of_method(
                            request.method@,
                        ).name()
                    } else {
                        old(self).pending().contains_key(request.id@) && e is InternalError
                    }
                },
            },
    {
        if str_eq(request.method.as_str(), "initialize") {
            if !self.state.is_initializing() {
                return Err(Error::NotInitialized);
            }
        } else {
            if !self.state.is_initialized() {
                return Err(Error::NotInitialized);
            }
            let feature = Feature::for_method(request.method.as_str());
            match &self.server_capabilities {
                Some(caps) => {
                    if !feature.offered(caps) {
                        return Err(Error::unsupported(feature.label()));
                    }
                },
                None => {
                    return Err(Error::unsupported(feature.label()));
                },
            }
        }
        let deadline = deadline(now, self.options.default_timeout_ms);
        self.pending.register(request.id.duplicate(), request.method.as_str(), deadline)
    }

    /// Makes the call under the given id: checks the gating capability,
    /// builds the request and registers its slot.
    pub fn issue(&mut self, call: &Call, id: RequestId, now: u64) -> (r: Result<
        JSONRPCRequest,
        Error,
    >)
        requires
            old(self).wf(),
        ensures
            issued(*old(self), *final(self), call.method_name(), call.params_value(), now, r),
            r matches Ok(request) ==> request.id@ == id@,
            r is Ok <==> old(self).state() is Initialized && old(self).server_offers(call.gate())
                && !old(self).pending().contains_key(id@),
    {
        proof {
            lemma_gate_of_method(*call);
            lemma_no_call_initializes(*call);
        }
        let request = call.to_request(id);
        match self.send_request(&request, now) {
            Ok(_) => Ok(request),
            Err(e) => Err(e),
        }
    }

    /// List available resources.
    pub fn list_resources(&mut self, now: u64) -> (r: Result<JSONRPCRequest, Error>)
        requires
            old(self).wf(),
        ensures
            issued(*old(self), *final(self), "resources/list"@, None, now, r),
    {
        self.issue(&Call::ListResources, RequestId::String(fresh_uuid()), now)
    }

    /// List available resource templates.
    pub fn list_resource_templates(&mut self, now: u64) -> (r: Result<JSONRPCRequest, Error>)
        requires
            old(self).wf(),
        ensures
            issued(*old(self), *final(self), "resources/templates/list"@, None, now, r),
    {
        self.issue(&Call::ListResourceTemplates, RequestId::String(fresh_uuid()), now)
    }

    /// Read a resource.
    pub fn read_resource(&mut self, uri: &str, now: u64) -> (r: Result<JSONRPCRequest, Error>)
        requires
            old(self).wf(),
        ensures
            issued(*old(self), *final(self), "resources/read"@, Some(uri_params(uri@)), now, r),
    {
        let call = Call::ReadResource { uri: uri.to_owned() };
        self.issue(&call, RequestId::String(fresh_uuid()), now)
    }

    /// Subscribe to resource updates.
    pub fn subscribe_resource(&mut self, uri: &str, now: u64) -> (r: Result<JSONRPCRequest, Error>)
        requires
            old(self).wf(),
        ensures
            issued(
                *old(self),
                *final(self),
                "resources/subscribe"@,
                Some(uri_params(uri@)),
                now,
                r,
            ),
    {
        let call = Call::SubscribeResource { uri: uri.to_owned() };
        self.issue(&call, RequestId::String(fresh_uuid()), now)
    }

    /// Unsubscribe from resource updates.
    pub fn unsubscribe_resource(&mut self, uri: &str, now: u64) -> (r: Result<
        JSONRPCRequest,
        Error,
    >)
        requires
            old(self).wf(),
        ensures
            issued(
                *old(self),
                *final(self),
                "resources/unsubscribe"@,
                Some(uri_params(uri@)),
                now,
                r,
            ),
    {
        let call = Call::UnsubscribeResource { uri: uri.to_owned() };
        self.issue(&call, RequestId::String(fresh_uuid()), now)
    }

    /// List available prompts.
    pub fn list_prompts(&mut self, now: u64) -> (r: Result<JSONRPCRequest, Error>)
        requires
            old(self).wf(),
        ensures
            issued(*old(self), *final(self), "prompts/list"@, None, now, r),
    {
        self.issue(&Call::ListPrompts, RequestId::String(fresh_uuid()), now)
    }

    /// Get a prompt.
    pub fn get_prompt(
        &mut self,
        name: &str,
        arguments: Option<Vec<(String, String)>>,
        now: u64,
    ) -> (r: Result<JSONRPCRequest, Error>)
        requires
            old(self).wf(),
        ensures
            issued(
                *old(self),
                *final(self),
                "prompts/get"@,
                Some(
                    named_params(
                        name@,
                        match arguments {
                            Some(pairs) => Some(string_map_value(pairs@)),
                            None => None,
                        },
                    ),
                ),
                now,
                r,
            ),
    {
        let call = Call::GetPrompt { name: name.to_owned(), arguments };
        self.issue(&call, RequestId::String(fresh_uuid()), now)
    }

    /// List available tools.
    pub fn list_tools(&mut self, now: u64) -> (r: Result<JSONRPCRequest, Error>)
        requires
            old(self).wf(),
        ensures
            issued(*old(self), *final(self), "tools/list"@, None, now, r),
    {
        self.issue(&Call::ListTools, RequestId::String(fresh_uuid()), now)
    }

    /// Call a tool.
    pub fn call_tool(&mut self, name: &str, arguments: Option<Json>, now: u64) -> (r: Result<
        JSONRPCRequest,
        Error,
    >)
        requires
            old(self).wf(),
        ensures
            issued(
                *old(self),
                *final(self),
                "tools/call"@,
                Some(named_params(name@, opt_view(arguments))),
                now,
                r,
            ),
    {
        let call = Call::CallTool { name: name.to_owned(), arguments };
        self.issue(&call, RequestId::String(fresh_uuid()), now)
    }

    /// Set the logging level.
    pub fn set_logging_level(&mut self, level: LoggingLevel, now: u64) -> (r: Result<
        JSONRPCRequest,
        Error,
    >)
        requires
            old(self).wf(),
        ensures
            issued(
                *old(self),
                *final(self),
                "logging/setLevel"@,
                Some(JsonValue::Object(Seq::empty().push(("level"@, JsonValue::Str(level.name()))))),
                now,
                r,
            ),
    {
        self.issue(&Call::SetLoggingLevel { level }, RequestId::String(fresh_uuid()), now)
    }

    /// Get completions for an argument.
    pub fn get_completions(
        &mut self,
        reference_type: CompletionReferenceType,
        reference_name: &str,
        argument_name: &str,
        argument_value: &str,
        now: u64,
    ) -> (r: Result<JSONRPCRequest, Error>)
        requires
            old(self).wf(),
        ensures
            issued(
                *old(self),
                *final(self),
                "completion/complete"@,
                Some(
                    completion_params(
                        reference_type,
                        reference_name@,
                        argument_name@,
                        argument_value@,
                    ),
                ),
                now,
                r,
            ),
    {
        let call = Call::GetCompletions {
            reference_type,
            reference_name: reference_name.to_owned(),
            argument_name: argument_name.to_owned(),
            argument_value: argument_value.to_owned(),
        };
        self.issue(&call, RequestId::String(fresh_uuid()), now)
    }

    /// List available roots.
    pub fn list_roots(&mut self, now: u64) -> (r: Result<JSONRPCRequest, Error>)
        requires
            old(self).wf(),
        ensures
            issued(*old(self), *final(self), "roots/list"@, None, now, r),
    {
        self.issue(&Call::ListRoots, RequestId::String(fresh_uuid()), now)
    }

    /// Ping the server.
    pub fn ping(&mut self, now: u64) -> (r: Result<JSONRPCRequest, Error>)
        requires
            old(self).wf(),
        ensures
            issued(*old(self), *final(self), "ping"@, None, now, r),
    {
        self.issue(&Call::Ping, RequestId::String(fresh_uuid()), now)
    }

    /// Notify the server that the roots list has changed. The notification
    /// is handed out only when the client offers roots and their
    /// list-changed notifications.
    pub fn notify_roots_changed(&self) -> (r: Result<JSONRPCNotification, Error>)
        ensures
            match r {
                Ok(n) => {
                    &&& self.options().capabilities.roots
                    &&& self.options().capabilities.roots_list_changed
                    &&& n@ == (NotificationView {
                        jsonrpc: "2.0"@,
                        method: "notifications/roots/list_changed"@,
                        params: None,
                    })
                },
                Err(e) => {
                    &&& !(self.options().capabilities.roots
                        && self.options().capabilities.roots_list_changed)
                    &&& e matches Error::UnsupportedFeature(m) && m@
                        == "Roots list changed notifications"@
                },
            },
    {
        if !self.options.capabilities.roots || !self.options.capabilities.roots_list_changed {
            return Err(Error::unsupported("Roots list changed notifications"));
        }
        Ok(JSONRPCNotification::new("notifications/roots/list_changed", None))
    }

    /// Cancel a request: its slot is removed, the notification for the peer
    /// is handed out, and the waiter of the slot is to be handed
    /// `Cancelled`.
    pub fn cancel_request(&mut self, request_id: RequestId, reason: Option<String>) -> (r:
        Cancellation)
        requires
            old(self).wf(),
        ensures
            final(self).wf(),
            final(self).state() == old(self).state(),
            final(self).capabilities() == old(self).capabilities(),
            final(self).options() == old(self).options(),
            final(self).identity() == old(self).identity(),
            final(self).pending() == old(self).pending().remove(request_id@),
            r.notification@ == (NotificationView {
                jsonrpc: "2.0"@,
                method: "notifications/cancelled"@,
                params: Some(cancelled_params(request_id@, opt_chars(reason))),
            }),
            match r.pending {
                Some(p) => old(self).pending().contains_key(request_id@) && old(
                    self,
                ).pending()[request_id@] == p@,
                None => !old(self).pending().contains_key(request_id@),
            },
            r.error matches Error::Cancelled(m) && m@ == (match reason {
                Some(text) => text@,
                None => Seq::empty(),
            }),
    {
        let mut params: Vec<(String, Json)> = Vec::new();
        assert(members_view(params@) =~= Seq::empty());
        put_value(&mut params, "requestId", &request_id);
        put_opt_str(&mut params, "reason", &reason);
        let notification = JSONRPCNotification::new(
            "notifications/cancelled",
            Some(Json::object(params)),
        );
        let pending = self.pending.cancel(&request_id);
        let error = Error::Cancelled(
            match reason {
                Some(text) => text,
                None => String::new(),
            },
        );
        Cancellation { notification, pending, error }
    }

    /// The deadline of a request has passed. If its slot is still there it
    /// is removed and the `Timeout` error for the waiter is returned; if the
    /// response was delivered first, nothing happens. No cancellation is
    /// sent to the peer.
    pub fn timeout_request(&mut self, id: &RequestId) -> (r: Option<Error>)
        requires
            old(self).wf(),
        ensures
            final(self).wf(),
            final(self).state() == old(self).state(),
            final(self).capabilities() == old(self).capabilities(),
            final(self).options() == old(self).options(),
            final(self).identity() == old(self).identity(),
            final(self).pending() == old(self).pending().remove(id@),
            match r {
                Some(e) => {
                    &&& old(self).pending().contains_key(id@)
                    &&& e matches Error::Timeout(m) && m@ == timeout_message(
                        old(self).options().default_timeout_ms,
                    )
                },
                None => !old(self).pending().contains_key(id@),
            },
    {
        match self.pending.complete(id) {
            Some(_) => Some(self.timeout_error()),
            None => None,
        }
    }

    /// Times the request out if its deadline has passed at `now`: the slot
    /// is removed and the `Timeout` error for the waiter is returned. A
    /// request that is not due, or not outstanding, stays as it was.
    pub fn expire_request(&mut self, id: &RequestId, now: u64) -> (r: Option<Error>)
        requires
            old(self).wf(),
        ensures
            final(self).wf(),
            final(self).state() == old(self).state(),
            final(self).capabilities() == old(self).capabilities(),
            final(self).options() == old(self).options(),
            final(self).identity() == old(self).identity(),
            final(self).pending() == if expires(old(self).pending(), id@, now) {
                old(self).pending().remove(id@)
            } else {
                old(self).pending()
            },
            match r {
                Some(e) => {
                    &&& expires(old(self).pending(), id@, now)
                    &&& e matches Error::Timeout(m) && m@ == timeout_message(
                        old(self).options().default_timeout_ms,
                    )
                },
                None => !expires(old(self).pending(), id@, now),
            },
    {
        match self.pending.expire(id, now) {
            Some(_) => Some(self.timeout_error()),
            None => None,
        }
    }

    /// The ids of the outstanding requests, each once, in no particular
    /// order.
    pub fn outstanding(&self) -> (ids: Vec<RequestId>)
        ensures
            forall|i: int, j: int| 0 <= i < j < ids.len() ==> ids[i]@ != ids[j]@,
            forall|i: int| 0 <= i < ids.len() ==> self.pending().contains_key(#[trigger] ids[i]@),
            forall|k: IdView|
                self.pending().contains_key(k) ==> exists|i: int|
                    0 <= i < ids.len() && #[trigger] ids[i]@ == k,
    {
        let ids = self.pending.outstanding();
        assert forall|k: IdView| self.pending().contains_key(k) implies exists|i: int|
            0 <= i < ids.len() && #[trigger] ids[i]@ == k by {
            assert(self.pending@.contains_key(k));
        }
        ids
    }

    /// The error that a request gets when its deadline passes.
    pub fn timeout_error(&self) -> (e: Error)
        ensures
            e matches Error::Timeout(m) && m@ == timeout_message(self.options().default_timeout_ms),
    {
        let mut message = "Request timed out after ".to_owned();
        message.append(decimal_string(self.options.default_timeout_ms).as_str());
        message.append(" ms");
        Error::Timeout(message)
    }

    /// The session has ended: every slot is removed, what was learned of
    /// the server is forgotten, the session becomes disconnected, and the
    /// ids whose waiters are to be handed `ConnectionClosed` are returned
    /// with the `Disconnected` event.
    pub fn disconnect(&mut self, reason: &str) -> (r: Disconnection)
        requires
            old(self).wf(),
        ensures
            final(self).wf(),
            old(self).state().may_become(final(self).state()),
            final(self).state() is Disconnected,
            final(self).pending() == Map::<IdView, PendingView>::empty(),
            final(self).capabilities() is None,
            final(self).options() == old(self).options(),
            final(self).identity() == old(self).identity(),
            r.event@ == (ClientEventView::Disconnected { reason: reason@ }),
            r.error matches Error::ConnectionClosed(m) && m@ == reason@,
            forall|i: int, j: int| 0 <= i < j < r.failed.len() ==> r.failed[i]@ != r.failed[j]@,
            forall|i: int|
                0 <= i < r.failed.len() ==> old(self).pending().contains_key(
                    #[trigger] r.failed[i]@,
                ),
            forall|k: IdView|
                old(self).pending().contains_key(k) ==> exists|i: int|
                    0 <= i < r.failed.len() && #[trigger] r.failed[i]@ == k,
    {
        let failed = self.pending.fail_all();
        self.state.set_disconnected();
        self.server_capabilities = None;
        let r = Disconnection {
            failed,
            error: Error::ConnectionClosed(reason.to_owned()),
            event: ClientEvent::Disconnected { reason: reason.to_owned() },
        };
        assert forall|k: IdView| old(self).pending().contains_key(k) implies exists|i: int|
            0 <= i < r.failed.len() && #[trigger] r.failed[i]@ == k by {
            assert(old(self).pending@.contains_key(k));
            let i = choose|i: int| 0 <= i < failed.len() && #[trigger] failed[i]@ == k;
            assert(r.failed[i]@ == k);
        }
        r
    }
}

/// While a request is outstanding, the session is initializing or
/// initialized.
pub proof fn lemma_pending_is_live(client: Client, id: IdView)
    requires
        client.wf(),
        client.pending().contains_key(id),
    ensures
        client.state().is_live(),
{
}

/// A request whose method is gated by a feature that the server, by the
/// capabilities that the session holds, does not offer is refused with
/// `UnsupportedFeature` naming the feature, and the table stays as it was.
pub proof fn lemma_refused_without_capability(
    before: Client,
    after: Client,
    method: Seq<char>,
    params: Option<JsonValue>,
    now: u64,
    r: Result<JSONRPCRequest, Error>,
)
    requires
        before.wf(),
        issued(before, after, method, params, now, r),
        before.capabilities() matches Some(caps) && !Feature::of_method(method).offered_by(caps),
    ensures
        r matches Err(e) && e matches Error::UnsupportedFeature(m) && m@ == Feature::of_method(
            method,
        ).name(),
        after.pending() == before.pending(),
{
}

/// With no request outstanding, an initialized session whose server offers
/// the feature that gates the method hands the request out.
pub proof fn lemma_issued_on_empty_table(
    before: Client,
    after: Client,
    method: Seq<char>,
    params: Option<JsonValue>,
    now: u64,
    r: Result<JSONRPCRequest, Error>,
)
    requires
        issued(before, after, method, params, now, r),
        before.state() is Initialized,
        before.server_offers(Feature::of_method(method)),
        forall|k: IdView| !before.pending().contains_key(k),
    ensures
        r is Ok,
{
}

/// No operation calls `initialize`.
pub proof fn lemma_no_call_initializes(call: Call)
    ensures
        call.method_name() != "initialize"@,
{
    reveal_strlit("initialize");
    reveal_strlit("resources/list");
    reveal_strlit("resources/templates/list");
    reveal_strlit("resources/read");
    reveal_strlit("resources/subscribe");
    reveal_strlit("resources/unsubscribe");
    reveal_strlit("prompts/list");
    reveal_strlit("prompts/get");
    reveal_strlit("tools/list");
    reveal_strlit("tools/call");
    reveal_strlit("logging/setLevel");
    reveal_strlit("completion/complete");
    reveal_strlit("roots/list");
    reveal_strlit("ping");
    assert("initialize"@.len() == 10 && "initialize"@[0] == 'i');
    assert("resources/list"@.len() == 14 && "resources/templates/list"@.len() == 24
        && "resources/read"@.len() == 14 && "resources/subscribe"@.len() == 19
        && "resources/unsubscribe"@.len() == 21 && "prompts/list"@.len() == 12
        && "prompts/get"@.len() == 11 && "tools/list"@[0] == 't' && "tools/call"@[0] == 't'
        && "logging/setLevel"@.len() == 16 && "completion/complete"@.len() == 19
        && "roots/list"@[0] == 'r' && "ping"@.len() == 4);
}

/// Computes the deadline of a request made at `now`.
fn deadline(now: u64, timeout_ms: u64) -> (d: u64)
    ensures
        d == deadline_after(now, timeout_ms),
{
    if timeout_ms == 0 {
        u64::MAX
    } else {
        match now.checked_add(timeout_ms) {
            Some(d) => d,
            None => u64::MAX,
        }
    }
}

/// The result that a response carries. An error response becomes
/// `ServerError` with its code, message and data; any other message is a
/// protocol error.
pub fn result_of(response: JSONRPCMessage) -> (r: Result<Json, Error>)
    ensures
        match r {
            Ok(result) => {
                response@ matches MessageView::Response(resp)
                    && result@ == resp.result
            },
            Err(e) => match response@ {
                MessageView::Response(_) => false,
                MessageView::Error(err) => {
                    e matches Error::ServerError(code, message, data) && code == err.error.code
                        && message@ == err.error.message && opt_view(data)
                        == err.error.data
                },
                _ => e is ProtocolError,
            },
        },
{
    match response {
        JSONRPCMessage::Response(resp) => Ok(resp.result),
        JSONRPCMessage::Error(err) => Err(
            Error::ServerError(err.error.code, err.error.message, err.error.data),
        ),
        _ => Err(Error::protocol("Unexpected response type")),
    }
}


} // verus!
