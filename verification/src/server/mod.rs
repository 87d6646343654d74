//! The server side of a session.
//!
//! [`Server`] is the server engine without its acceptor: whoever accepts
//! connections adds them, feeds the engine the messages that arrive on each,
//! and sends the replies it hands out.

pub mod builder;
pub mod connections;
pub mod handler;
pub mod service;
pub mod state;

pub use crate::server::builder::ServerBuilder;
pub use crate::server::service::{ServerService, ServiceContext, ServiceRequest, ServiceResponse};

use crate::client::cancelled_params;
use crate::client::requests::uri_params;
use crate::error::Error;
use crate::json::{
    duplicate_members, Json, JsonValue, members_view, Number, opt_chars, push_opt, put_opt_number,
    put_opt_str, put_str,
};
use crate::protocol::{IdView, Implementation, ImplementationView, ProgressToken, RequestId};
use crate::protocol::json_rpc::{
    JSONRPCMessage, JSONRPCNotification, JSONRPCRequest, NotificationView, RequestView,
};
use crate::protocol::logging::LoggingLevel;
use crate::protocol::wire::{put_value, view_opt};
use crate::server::connections::ConnectionTable;
use crate::server::handler::{connection_after, handle, route, ServerStep, ServerStepView};
use crate::server::service::{reply_to, respond};
use crate::server::state::{
    CapabilityState, Connection, ConnectionView, OperationalState, ServerState,
};
use crate::utils::ids::fresh_uuid;
use vstd::prelude::*;
use vstd::string::StringExecFns;

verus! {

/// Server capability flags and settings.
#[derive(Debug, Clone, PartialEq)]
pub struct ServerCapabilities {
    /// Whether the server supports sending log messages.
    pub logging: bool,
    /// Whether the server supports completions.
    pub completions: bool,
    /// Whether the server supports prompts.
    pub prompts: bool,
    /// Whether the server supports prompts list changed notifications.
    pub prompts_list_changed: bool,
    /// Whether the server supports resources.
    pub resources: bool,
    /// Whether the server supports resource list changed notifications.
    pub resources_list_changed: bool,
    /// Whether the server supports resource subscriptions.
    pub resources_subscribe: bool,
    /// Whether the server supports tools.
    pub tools: bool,
    /// Whether the server supports tool list changed notifications.
    pub tools_list_changed: bool,
    /// Experimental capabilities, by name.
    pub experimental: Vec<(String, Json)>,
}

impl Default for ServerCapabilities {
    fn default() -> (c: ServerCapabilities)
        ensures
            c.logging,
            !c.completions,
            !c.prompts,
            !c.prompts_list_changed,
            !c.resources,
            !c.resources_list_changed,
            !c.resources_subscribe,
            !c.tools,
            !c.tools_list_changed,
            c.experimental@.len() == 0,
    {
        ServerCapabilities {
            logging: true,
            completions: false,
            prompts: false,
            prompts_list_changed: false,
            resources: false,
            resources_list_changed: false,
            resources_subscribe: false,
            tools: false,
            tools_list_changed: false,
            experimental: Vec::new(),
        }
    }
}

/// MCP server options.
#[derive(Debug, Clone, PartialEq)]
pub struct ServerOptions {
    /// Server implementation info.
    pub implementation: Implementation,
    /// Server capabilities.
    pub capabilities: ServerCapabilities,
    /// Server instructions.
    pub instructions: Option<String>,
    /// Automatically acknowledge ping requests.
    pub auto_acknowledge_ping: bool,
    /// Default timeout for requests in milliseconds (0 = no timeout).
    pub default_timeout_ms: u64,
}

impl Default for ServerOptions {
    fn default() -> (o: ServerOptions)
        ensures
            o.implementation@ == (ImplementationView { name: "mcpx-server"@, version: "0.1.0"@ }),
            o.capabilities.logging,
            !o.capabilities.completions,
            !o.capabilities.prompts,
            !o.capabilities.prompts_list_changed,
            !o.capabilities.resources,
            !o.capabilities.resources_list_changed,
            !o.capabilities.resources_subscribe,
            !o.capabilities.tools,
            !o.capabilities.tools_list_changed,
            o.capabilities.experimental@.len() == 0,
            o.instructions is None,
            o.auto_acknowledge_ping,
            o.default_timeout_ms == 30000,
    {
        ServerOptions {
            implementation: Implementation::new("mcpx-server", "0.1.0"),
            capabilities: ServerCapabilities::default(),
            instructions: None,
            auto_acknowledge_ping: true,
            default_timeout_ms: 30000,
        }
    }
}

/// Client capabilities, as the server has read them from the handshake.
#[derive(Debug, Clone, PartialEq)]
pub struct ClientCapabilities {
    /// Whether the client supports listing roots.
    pub roots: bool,
    /// Whether the client supports notifications for changes to the roots list.
    pub roots_list_changed: bool,
    /// Whether the client supports sampling from an LLM.
    pub sampling: bool,
    /// Experimental capabilities, by name.
    pub experimental: Vec<(String, Json)>,
}

/// The mathematical value of the client capabilities.
pub struct ClientCapabilitiesView {
    pub roots: bool,
    pub roots_list_changed: bool,
    pub sampling: bool,
    pub experimental: Seq<(Seq<char>, JsonValue)>,
}

impl View for ClientCapabilities {
    type V = ClientCapabilitiesView;

    open spec fn view(&self) -> ClientCapabilitiesView {
        ClientCapabilitiesView {
            roots: self.roots,
            roots_list_changed: self.roots_list_changed,
            sampling: self.sampling,
            experimental: members_view(self.experimental@),
        }
    }
}

impl Default for ClientCapabilities {
    fn default() -> (c: ClientCapabilities)
        ensures
            !c.roots,
            !c.roots_list_changed,
            !c.sampling,
            c.experimental@.len() == 0,
    {
        ClientCapabilities {
            roots: false,
            roots_list_changed: false,
            sampling: false,
            experimental: Vec::new(),
        }
    }
}

/// An event that can be emitted by the server.
#[derive(Debug, Clone, PartialEq)]
pub enum ServerEvent {
    /// Client connected.
    ClientConnected {
        /// Client ID.
        client_id: String,
        /// Client implementation info.
        client_info: Implementation,
        /// Client protocol version.
        protocol_version: String,
        /// Client capabilities.
        capabilities: ClientCapabilities,
    },
    /// Client disconnected.
    ClientDisconnected {
        /// Client ID.
        client_id: String,
        /// Reason for disconnection.
        reason: String,
    },
    /// Roots list updated.
    RootsUpdated {
        /// Client ID.
        client_id: String,
    },
    /// Error occurred.
    Error {
        /// Client ID (if any).
        client_id: Option<String>,
        /// Error details.
        error: Error,
    },
}

/// The mathematical value of a [`ServerEvent`].
pub enum ServerEventView {
    ClientConnected {
        client_id: Seq<char>,
        client_info: ImplementationView,
        protocol_version: Seq<char>,
        capabilities: ClientCapabilitiesView,
    },
    ClientDisconnected { client_id: Seq<char>, reason: Seq<char> },
    RootsUpdated { client_id: Seq<char> },
    Error { client_id: Option<Seq<char>>, error: Error },
}

impl View for ServerEvent {
    type V = ServerEventView;

    open spec fn view(&self) -> ServerEventView {
        match self {
            ServerEvent::ClientConnected {
                client_id,
                client_info,
                protocol_version,
                capabilities,
            } => ServerEventView::ClientConnected {
                client_id: client_id@,
                client_info: client_info@,
                protocol_version: protocol_version@,
                capabilities: capabilities@,
            },
            ServerEvent::ClientDisconnected {
                client_id,
                reason,
            } => ServerEventView::ClientDisconnected { client_id: client_id@, reason: reason@ },
            ServerEvent::RootsUpdated { client_id } => ServerEventView::RootsUpdated {
                client_id: client_id@,
            },
            ServerEvent::Error { client_id, error } => ServerEventView::Error {
                client_id: opt_chars(*client_id),
                error: *error,
            },
        }
    }
}

/// The text of the error for a client that is not connected.
pub open spec fn unknown_client(client_id: Seq<char>) -> Seq<char> {
    "Unknown client: "@ + client_id
}

/// The notification without parameters.
pub open spec fn bare(method: Seq<char>) -> NotificationView {
    NotificationView { jsonrpc: "2.0"@, method, params: None }
}

/// The notification with parameters.
pub open spec fn carrying(method: Seq<char>, params: JsonValue) -> NotificationView {
    NotificationView { jsonrpc: "2.0"@, method, params: Some(params) }
}

/// The parameters of a log notification that carries a text.
pub open spec fn log_params(level: LoggingLevel, message: Seq<char>) -> JsonValue {
    JsonValue::Object(
        Seq::empty().push(("level"@, JsonValue::Str(level.name()))).push(
            ("data"@, JsonValue::Str(message)),
        ),
    )
}

/// The parameters of a progress notification.
pub open spec fn progress_params(
    token: IdView,
    progress: Number,
    total: Option<Number>,
    message: Option<Seq<char>>,
) -> JsonValue {
    let m = Seq::empty();
    let m = m.push(("progressToken"@, token.encode()));
    let m = m.push(("progress"@, JsonValue::Number(progress)));
    let m = push_opt(
        m,
        "total"@,
        match total {
            Some(t) => Some(JsonValue::Number(t)),
            None => None,
        },
    );
    let m = push_opt(
        m,
        "message"@,
        match message {
            Some(text) => Some(JsonValue::Str(text)),
            None => None,
        },
    );
    JsonValue::Object(m)
}

/// What a server hands out for a notification to a client: the
/// notification when the client is connected and `allowed` by the
/// capabilities of its connection, `InternalError` for an unknown client,
/// and `UnsupportedFeature` with the name of the feature otherwise.
pub open spec fn outbound(
    connections: Map<Seq<char>, ConnectionView>,
    client_id: Seq<char>,
    allowed: bool,
    feature: Seq<char>,
    expected: NotificationView,
    r: Result<JSONRPCNotification, Error>,
) -> bool {
    match r {
        Ok(n) => connections.contains_key(client_id) && allowed && n@ == expected,
        Err(e) => if !connections.contains_key(client_id) {
            e matches Error::InternalError(m) && m@ == unknown_client(client_id)
        } else {
            &&& !allowed
            &&& e matches Error::UnsupportedFeature(m) && m@ == feature
        },
    }
}

/// What was done with a message by a server that asks its service itself.
#[derive(Debug, Clone, PartialEq)]
pub struct Served {
    /// The reply to send, if the message calls for one.
    pub reply: Option<JSONRPCMessage>,
    /// The event to emit, if the message gives rise to one.
    pub event: Option<ServerEvent>,
}

/// Whether `served` is what a step calls for. A request that was handed to
/// the service is answered with the reply to whatever the service answered.
pub open spec fn serves(step: ServerStepView, served: Served) -> bool {
    match step {
        ServerStepView::Reply { reply } => {
            &&& served.reply matches Some(m) && m@ == reply
            &&& served.event is None
        },
        ServerStepView::Connected { reply, event } => {
            &&& served.reply matches Some(m) && m@ == reply
            &&& served.event matches Some(e) && e@ == event
        },
        ServerStepView::Ask { id, request } => {
            &&& served.event is None
            &&& served.reply matches Some(m) && exists|outcome: Result<ServiceResponse, Error>|
                m@ == #[trigger] reply_to(id, request, outcome)
        },
        ServerStepView::RootsUpdated { event } => {
            &&& served.reply is None
            &&& served.event matches Some(e) && e@ == event
        },
        _ => served.reply is None && served.event is None,
    }
}

/// MCP server.
pub struct Server {
    /// Unique server identifier.
    id: String,
    /// Server state.
    state: ServerState,
    /// Connection tracking.
    connections: ConnectionTable,
    /// Server options.
    options: ServerOptions,
}

impl Server {
    /// The operational state.
    pub closed spec fn state(&self) -> OperationalState {
        self.state@
    }

    /// The connections, by client id.
    pub closed spec fn connections(&self) -> Map<Seq<char>, ConnectionView> {
        self.connections@
    }

    /// The options that the server was made with.
    pub closed spec fn options(&self) -> ServerOptions {
        self.options
    }

    /// Create a new server with the given options.
    pub fn new(options: ServerOptions) -> (s: Server)
        ensures
            s.state() is Stopped,
            s.connections() == Map::<Seq<char>, ConnectionView>::empty(),
            s.options() == options,
    {
        Server {
            id: fresh_uuid(),
            state: ServerState::new(),
            connections: ConnectionTable::new(),
            options,
        }
    }

    /// The identifier that the server was given when it was made.
    pub closed spec fn identity(&self) -> Seq<char> {
        self.id@
    }

    /// Get the server ID.
    pub fn id(&self) -> (id: &str)
        ensures
            id@ == self.identity(),
    {
        self.id.as_str()
    }

    /// The operational state.
    pub fn operational_state(&self) -> (o: OperationalState)
        ensures
            o == self.state(),
    {
        self.state.operational_state()
    }

    /// The options that the server was made with.
    pub fn options_ref(&self) -> (o: &ServerOptions)
        ensures
            *o == self.options(),
    {
        &self.options
    }

    /// Start the server.
    pub fn start(&mut self)
        ensures
            final(self).state() is Running,
            final(self).connections() == old(self).connections(),
            final(self).options() == old(self).options(),
            final(self).identity() == old(self).identity(),
    {
        self.state.set_running();
    }

    /// Stop the server: every connection is dropped.
    pub fn stop(&mut self)
        ensures
            final(self).state() is Stopped,
            final(self).connections() == Map::<Seq<char>, ConnectionView>::empty(),
            final(self).options() == old(self).options(),
            final(self).identity() == old(self).identity(),
    {
        self.state.set_stopping();
        self.connections.clear();
        self.state.set_stopped();
    }

    /// Add a connection to the server.
    pub fn add_connection(&mut self, id: &str)
        ensures
            final(self).state() == old(self).state(),
            final(self).options() == old(self).options(),
            final(self).identity() == old(self).identity(),
            final(self).connections() == old(self).connections().insert(
                id@,
                ConnectionView::fresh(id@),
            ),
    {
        self.connections.insert(id, Connection::new(id));
    }

    /// Remove a connection from the server. Returns whether the client was
    /// connected.
    pub fn remove_connection(&mut self, id: &str) -> (r: bool)
        ensures
            final(self).state() == old(self).state(),
            final(self).options() == old(self).options(),
            final(self).identity() == old(self).identity(),
            final(self).connections() == old(self).connections().remove(id@),
            r == old(self).connections().contains_key(id@),
    {
        self.connections.remove(id).is_some()
    }

    /// A copy of the connection of a client.
    pub fn connection(&self, client_id: &str) -> (c: Option<Connection>)
        ensures
            match c {
                Some(conn) => self.connections().contains_key(client_id@)
                    && self.connections()[client_id@] == conn@,
                None => !self.connections().contains_key(client_id@),
            },
    {
        self.connections.get(client_id)
    }

    /// Handle an incoming message from a client: decides what is to be
    /// done, and keeps what the message changes of the connection. A message
    /// from an unknown client is refused with `InternalError`.
    pub fn handle_message(&mut self, client_id: &str, message: JSONRPCMessage) -> (r: Result<
        ServerStep,
        Error,
    >)
        ensures
            final(self).state() == old(self).state(),
            final(self).options() == old(self).options(),
            final(self).identity() == old(self).identity(),
            match old(self).connections().get(client_id@) {
                None => {
                    &&& final(self).connections() == old(self).connections()
                    &&& r matches Err(e) && e matches Error::InternalError(m) && m@
                        == unknown_client(client_id@)
                },
                Some(conn) => {
                    &&& final(self).connections() == old(self).connections().insert(
                        client_id@,
                        connection_after(
                            old(self).state() is Running,
                            old(self).options(),
                            conn,
                            message@,
                        ),
                    )
                    &&& match r {
                        Ok(step) => route(
                            old(self).state() is Running,
                            old(self).options(),
                            conn,
                            message@,
                        ) matches Ok(s) && s == step@,
                        Err(e) => route(
                            old(self).state() is Running,
                            old(self).options(),
                            conn,
                            message@,
                        ) matches Err(f) && e.reports(f),
                    }
                },
            },
    {
        let mut conn = match self.connections.get(client_id) {
            Some(conn) => conn,
            None => {
                return Err(unknown(client_id));
            },
        };
        let r = handle(self.state.is_running(), &self.options, &mut conn, message);
        self.connections.insert(client_id, conn);
        r
    }

    /// Handle an incoming message from a client and ask the service where
    /// the message calls for it: the reply and the event come back.
    pub fn serve<S: ServerService>(
        &mut self,
        service: &S,
        client_id: &str,
        message: JSONRPCMessage,
    ) -> (r: Result<Served, Error>)
        ensures
            final(self).state() == old(self).state(),
            final(self).options() == old(self).options(),
            final(self).identity() == old(self).identity(),
            match old(self).connections().get(client_id@) {
                None => {
                    &&& final(self).connections() == old(self).connections()
                    &&& r matches Err(e) && e matches Error::InternalError(m) && m@
                        == unknown_client(client_id@)
                },
                Some(conn) => {
                    &&& final(self).connections() == old(self).connections().insert(
                        client_id@,
                        connection_after(
                            old(self).state() is Running,
                            old(self).options(),
                            conn,
                            message@,
                        ),
                    )
                    &&& match r {
                        Ok(served) => route(
                            old(self).state() is Running,
                            old(self).options(),
                            conn,
                            message@,
                        ) matches Ok(s) && serves(s, served),
                        Err(e) => route(
                            old(self).state() is Running,
                            old(self).options(),
                            conn,
                            message@,
                        ) matches Err(f) && e.reports(f),
                    }
                },
            },
    {
        let step = self.handle_message(client_id, message)?;
        match step {
            ServerStep::Reply { reply } => Ok(Served { reply: Some(reply), event: None }),
            ServerStep::Connected { reply, event } => {
                match &event {
                    ServerEvent::ClientConnected {
                        client_id,
                        client_info,
                        protocol_version,
                        capabilities,
                    } => {
                        let _ = service.client_connected(
                            client_id.clone(),
                            client_info.duplicate(),
                            protocol_version.clone(),
                            capabilities.clone(),
                        );
                    },
                    _ => {},
                }
                Ok(Served { reply: Some(reply), event: Some(event) })
            },
            ServerStep::Ask { id, request } => {
                let context = self.context(client_id);
                let outcome = service.handle_request(context, request.clone());
                let reply = respond(id, &request, outcome);
                assert(reply@ == reply_to(id@, request@, outcome));
                Ok(Served { reply: Some(reply), event: None })
            },
            ServerStep::Initialized => Ok(Served { reply: None, event: None }),
            ServerStep::Cancelled { request_id, reason } => {
                let _ = service.request_cancelled(client_id.to_owned(), request_id, reason);
                Ok(Served { reply: None, event: None })
            },
            ServerStep::Progress { token, progress, total, message } => {
                let _ = service.progress_reported(
                    client_id.to_owned(),
                    token,
                    progress,
                    total,
                    message,
                );
                Ok(Served { reply: None, event: None })
            },
            ServerStep::RootsUpdated { event } => {
                let _ = service.roots_updated(client_id.to_owned());
                Ok(Served { reply: None, event: Some(event) })
            },
        }
    }

    /// The context that the service is given with a request of the client.
    pub fn context(&self, client_id: &str) -> (c: ServiceContext)
        ensures
            c.client_id@ == client_id@,
            match self.connections().get(client_id@) {
                Some(conn) => {
                    &&& c.initialized == conn.initialized
                    &&& view_opt(c.client_info) == conn.client_info
                    &&& opt_chars(c.protocol_version) == conn.protocol_version
                    &&& c.capabilities is Some == conn.greeted()
                    &&& c.capabilities matches Some(caps) ==> caps@ == (ClientCapabilitiesView {
                        roots: conn.capabilities.roots,
                        roots_list_changed: conn.capabilities.roots_list_changed,
                        sampling: conn.capabilities.sampling,
                        experimental: conn.capabilities.experimental,
                    })
                },
                None => !c.initialized && c.client_info is None && c.capabilities is None,
            },
    {
        match self.connections.get(client_id) {
            Some(conn) => {
                let capabilities = if conn.client_info.is_some() {
                    Some(
                        ClientCapabilities {
                            roots: conn.capabilities.roots,
                            roots_list_changed: conn.capabilities.roots_list_changed,
                            sampling: conn.capabilities.sampling,
                            experimental: duplicate_members(&conn.capabilities.experimental),
                        },
                    )
                } else {
                    None
                };
                ServiceContext {
                    client_id: client_id.to_owned(),
                    initialized: conn.initialized,
                    client_info: conn.client_info,
                    protocol_version: conn.protocol_version,
                    capabilities,
                    server_options: self.options.clone(),
                }
            },
            None => ServiceContext {
                client_id: client_id.to_owned(),
                initialized: false,
                client_info: None,
                protocol_version: None,
                capabilities: None,
                server_options: self.options.clone(),
            },
        }
    }

    /// The capabilities of the connection of a client.
    fn capabilities_of(&self, client_id: &str) -> (r: Result<CapabilityState, Error>)
        ensures
            match r {
                Ok(c) => self.connections().contains_key(client_id@)
                    && self.connections()[client_id@].capabilities == c@,
                Err(e) => {
                    &&& !self.connections().contains_key(client_id@)
                    &&& e matches Error::InternalError(m) && m@ == unknown_client(client_id@)
                },
            },
    {
        match self.connections.get(client_id) {
            Some(conn) => Ok(conn.capabilities),
            None => Err(unknown(client_id)),
        }
    }

    /// Send a notification to a specific client: the notification is handed
    /// back for sending when the client is connected.
    pub fn send_notification(&self, client_id: &str, notification: JSONRPCNotification) -> (r:
        Result<JSONRPCNotification, Error>)
        ensures
            outbound(self.connections(), client_id@, true, Seq::empty(), notification@, r),
    {
        if !self.connections.contains(client_id) {
            return Err(unknown(client_id));
        }
        Ok(notification)
    }

    /// Send a log message to a client.
    pub fn send_log(&self, client_id: &str, level: LoggingLevel, message: &str) -> (r: Result<
        JSONRPCNotification,
        Error,
    >)
        ensures
            outbound(
                self.connections(),
                client_id@,
                self.connections()[client_id@].capabilities.logging,
                "Logging"@,
                carrying("notifications/message"@, log_params(level, message@)),
                r,
            ),
    {
        let caps = self.capabilities_of(client_id)?;
        if !caps.logging {
            return Err(Error::unsupported("Logging"));
        }
        let mut params: Vec<(String, Json)> = Vec::new();
        assert(members_view(params@) =~= Seq::empty());
        put_str(&mut params, "level", level.as_str());
        put_str(&mut params, "data", message);
        Ok(JSONRPCNotification::new("notifications/message", Some(Json::object(params))))
    }

    /// Notify a client that resources have changed.
    pub fn notify_resources_changed(&self, client_id: &str) -> (r: Result<
        JSONRPCNotification,
        Error,
    >)
        ensures
            outbound(
                self.connections(),
                client_id@,
                self.connections()[client_id@].capabilities.resources_list_changed,
                "Resource list changed notifications"@,
                bare("notifications/resources/list_changed"@),
                r,
            ),
    {
        let caps = self.capabilities_of(client_id)?;
        if !caps.resources_list_changed {
            return Err(Error::unsupported("Resource list changed notifications"));
        }
        Ok(JSONRPCNotification::new("notifications/resources/list_changed", None))
    }

    /// Notify a client that a resource has been updated.
    pub fn notify_resource_updated(&self, client_id: &str, uri: &str) -> (r: Result<
        JSONRPCNotification,
        Error,
    >)
        ensures
            outbound(
                self.connections(),
                client_id@,
                self.connections()[client_id@].capabilities.resources_subscribe,
                "Resource subscriptions"@,
                carrying(
                    "notifications/resources/updated"@,
                    uri_params(uri@),
                ),
                r,
            ),
    {
        let caps = self.capabilities_of(client_id)?;
        if !caps.resources_subscribe {
            return Err(Error::unsupported("Resource subscriptions"));
        }
        let mut params: Vec<(String, Json)> = Vec::new();
        assert(members_view(params@) =~= Seq::empty());
        put_str(&mut params, "uri", uri);
        Ok(JSONRPCNotification::new("notifications/resources/updated", Some(Json::object(params))))
    }

    /// Notify a client that prompts have changed.
    pub fn notify_prompts_changed(&self, client_id: &str) -> (r: Result<JSONRPCNotification, Error>)
        ensures
            outbound(
                self.connections(),
                client_id@,
                self.connections()[client_id@].capabilities.prompts_list_changed,
                "Prompts list changed notifications"@,
                bare("notifications/prompts/list_changed"@),
                r,
            ),
    {
        let caps = self.capabilities_of(client_id)?;
        if !caps.prompts_list_changed {
            return Err(Error::unsupported("Prompts list changed notifications"));
        }
        Ok(JSONRPCNotification::new("notifications/prompts/list_changed", None))
    }

    /// Notify a client that tools have changed.
    pub fn notify_tools_changed(&self, client_id: &str) -> (r: Result<JSONRPCNotification, Error>)
        ensures
            outbound(
                self.connections(),
                client_id@,
                self.connections()[client_id@].capabilities.tools_list_changed,
                "Tools list changed notifications"@,
                bare("notifications/tools/list_changed"@),
                r,
            ),
    {
        let caps = self.capabilities_of(client_id)?;
        if !caps.tools_list_changed {
            return Err(Error::unsupported("Tools list changed notifications"));
        }
        Ok(JSONRPCNotification::new("notifications/tools/list_changed", None))
    }

    /// Send a progress update for a request.
    pub fn send_progress(
        &self,
        client_id: &str,
        token: ProgressToken,
        progress: Number,
        total: Option<Number>,
        message: Option<&str>,
    ) -> (r: Result<JSONRPCNotification, Error>)
        ensures
            outbound(
                self.connections(),
                client_id@,
                true,
                Seq::empty(),
                carrying(
                    "notifications/progress"@,
                    progress_params(
                        token@,
                        progress,
                        total,
                        match message {
                            Some(text) => Some(text@),
                            None => None,
                        },
                    ),
                ),
                r,
            ),
    {
        if !self.connections.contains(client_id) {
            return Err(unknown(client_id));
        }
        let mut params: Vec<(String, Json)> = Vec::new();
        assert(members_view(params@) =~= Seq::empty());
        put_value(&mut params, "progressToken", &token);
        put_value(&mut params, "progress", &progress);
        put_opt_number(&mut params, "total", total);
        match message {
            Some(text) => put_str(&mut params, "message", text),
            None => {},
        }
        Ok(JSONRPCNotification::new("notifications/progress", Some(Json::object(params))))
    }

    /// Cancel a request.
    pub fn cancel_request(
        &self,
        client_id: &str,
        request_id: RequestId,
        reason: Option<String>,
    ) -> (r:
        Result<JSONRPCNotification, Error>)
        ensures
            outbound(
                self.connections(),
                client_id@,
                true,
                Seq::empty(),
                carrying(
                    "notifications/cancelled"@,
                    cancelled_params(request_id@, opt_chars(reason)),
                ),
                r,
            ),
    {
        if !self.connections.contains(client_id) {
            return Err(unknown(client_id));
        }
        let mut params: Vec<(String, Json)> = Vec::new();
        assert(members_view(params@) =~= Seq::empty());
        put_value(&mut params, "requestId", &request_id);
        put_opt_str(&mut params, "reason", &reason);
        Ok(JSONRPCNotification::new("notifications/cancelled", Some(Json::object(params))))
    }

    /// Request roots from a client: the `roots/list` request is handed out
    /// when the client is connected and lists roots.
    pub fn request_roots(&self, client_id: &str) -> (r: Result<JSONRPCRequest, Error>)
        ensures
            match r {
                Ok(request) => {
                    &&& self.connections().contains_key(client_id@)
                    &&& self.connections()[client_id@].capabilities.roots
                    &&& request@ == (RequestView {
                        jsonrpc: "2.0"@,
                        id: request.id@,
                        method: "roots/list"@,
                        params: None,
                    })
                },
                Err(e) => if !self.connections().contains_key(client_id@) {
                    e matches Error::InternalError(m) && m@ == unknown_client(client_id@)
                } else {
                    &&& !self.connections()[client_id@].capabilities.roots
                    &&& e matches Error::UnsupportedFeature(m) && m@ == "Roots"@
                },
            },
    {
        let caps = self.capabilities_of(client_id)?;
        if !caps.roots {
            return Err(Error::unsupported("Roots"));
        }
        Ok(JSONRPCRequest::new(RequestId::String(fresh_uuid()), "roots/list", None))
    }
}

/// The error for a client that is not connected.
fn unknown(client_id: &str) -> (e: Error)
    ensures
        e matches Error::InternalError(m) && m@ == unknown_client(client_id@),
{
    let mut message = "Unknown client: ".to_owned();
    message.append(client_id);
    Error::InternalError(message)
}


} // verus!
