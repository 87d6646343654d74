//! What the client does with a message that arrives.
//!
//! [`inbound`] says it as a function of the session and the message;
//! [`Client::handle_message`] computes it.

use crate::client::{Client, ClientEvent, ClientEventView, ClientOptions, ServerCapabilitiesView};
use crate::client::pending::{PendingRequest, PendingView};
use crate::error::{Error, WireFault};
use crate::json::{Json, JsonValue, members_view, put, str_eq};
use crate::protocol::{IdView, ProgressToken, RequestId};
use crate::protocol::json_rpc::{
    ErrorInfoView, ErrorView, JSONRPCError, JSONRPCMessage, JSONRPCNotification, JSONRPCRequest,
    JSONRPCResponse, MessageView, NotificationView, RequestView, ResponseView,
};
use crate::protocol::json_rpc::error_codes::{INTERNAL_ERROR, METHOD_NOT_FOUND};
use crate::protocol::logging::LoggingLevel;
use crate::protocol::wire::{member, required, views};
use crate::server::service::failure;
use vstd::prelude::*;
use vstd::string::StringExecFns;

verus! {

/// What is to be done with a message that arrived.
#[derive(Debug, Clone, PartialEq)]
pub enum Inbound {
    /// A response or an error response to an outstanding request: hand
    /// `message` to the waiter of the slot.
    Deliver { pending: PendingRequest, message: JSONRPCMessage },
    /// The peer cancelled the outstanding request `id`: hand `Cancelled`,
    /// with the reason, to the waiter of the slot.
    Fail { id: RequestId, pending: PendingRequest, reason: String },
    /// Send the reply to the peer.
    Reply { reply: JSONRPCMessage },
    /// Put the event on the event stream.
    Emit { event: ClientEvent },
    /// Put the event on the event stream, then send the reply.
    EmitAndReply { event: ClientEvent, reply: JSONRPCMessage },
    /// A sampling request: hand it to the application's sampling handler,
    /// whose answer is the reply.
    Sample { request: JSONRPCRequest },
}

/// The mathematical value of an [`Inbound`].
pub enum InboundView {
    Deliver { pending: PendingView, message: MessageView },
    Fail { id: IdView, pending: PendingView, reason: Seq<char> },
    Reply { reply: MessageView },
    Emit { event: ClientEventView },
    EmitAndReply { event: ClientEventView, reply: MessageView },
    Sample { request: RequestView },
}

impl View for Inbound {
    type V = InboundView;

    open spec fn view(&self) -> InboundView {
        match self {
            Inbound::Deliver { pending, message } => InboundView::Deliver {
                pending: pending@,
                message: message@,
            },
            Inbound::Fail { id, pending, reason } => InboundView::Fail {
                id: id@,
                pending: pending@,
                reason: reason@,
            },
            Inbound::Reply { reply } => InboundView::Reply { reply: reply@ },
            Inbound::Emit { event } => InboundView::Emit { event: event@ },
            Inbound::EmitAndReply { event, reply } => InboundView::EmitAndReply {
                event: event@,
                reply: reply@,
            },
            Inbound::Sample { request } => InboundView::Sample { request: request@ },
        }
    }
}

/// The empty result `{}` for the request with the given id.
pub open spec fn empty_result(id: IdView) -> MessageView {
    MessageView::Response(
        ResponseView { jsonrpc: "2.0"@, id, result: JsonValue::empty_object() },
    )
}

/// The result `{"roots": []}` for the request with the given id.
pub open spec fn no_roots(id: IdView) -> MessageView {
    MessageView::Response(
        ResponseView {
            jsonrpc: "2.0"@,
            id,
            result: JsonValue::Object(
                Seq::empty().push(("roots"@, JsonValue::Array(Seq::empty()))),
            ),
        },
    )
}

/// The error response "method not found" with the given message.
pub open spec fn not_found(id: IdView, message: Seq<char>) -> MessageView {
    MessageView::Error(
        ErrorView {
            jsonrpc: "2.0"@,
            id,
            error: ErrorInfoView { code: METHOD_NOT_FOUND, message, data: None },
        },
    )
}

/// What the client does with a request of the server.
pub open spec fn on_request(options: ClientOptions, request: RequestView) -> InboundView {
    if request.method == "ping"@ {
        InboundView::Reply { reply: empty_result(request.id) }
    } else if request.method == "roots/list"@ {
        if !options.capabilities.roots {
            InboundView::Reply { reply: not_found(request.id, "Client does not support roots"@) }
        } else if options.auto_acknowledge_roots_changed {
            InboundView::EmitAndReply {
                event: ClientEventView::RootsChanged,
                reply: no_roots(request.id),
            }
        } else {
            InboundView::Emit { event: ClientEventView::RootsChanged }
        }
    } else if request.method == "sampling/createMessage"@ {
        if !options.capabilities.sampling {
            InboundView::Reply {
                reply: not_found(request.id, "Client does not support sampling"@),
            }
        } else {
            InboundView::Sample { request }
        }
    } else {
        InboundView::Reply {
            reply: not_found(request.id, "Method not found: "@ + request.method),
        }
    }
}

/// Whether the server advertised the list-changed notifications of a
/// feature. Before the handshake completes it has advertised nothing.
pub open spec fn may_announce(caps: Option<ServerCapabilitiesView>, method: Seq<char>) -> bool {
    match caps {
        Some(c) => {
            if method == "notifications/resources/list_changed"@ {
                c.resources && c.resources_list_changed
            } else if method == "notifications/prompts/list_changed"@ {
                c.prompts && c.prompts_list_changed
            } else {
                c.tools && c.tools_list_changed
            }
        },
        None => false,
    }
}

/// The event of a progress notification.
pub open spec fn progress_event(params: JsonValue) -> Result<ClientEventView, WireFault> {
    match (member::<ProgressToken>(params, "progressToken"@), params.get("progress"@)) {
        (Some(token), Some(JsonValue::Number(progress))) => Ok(
            ClientEventView::Progress {
                request_id: token,
                token,
                progress,
                total: match params.get("total"@) {
                    Some(JsonValue::Number(total)) => Some(total),
                    _ => None,
                },
                message: params.get_str("message"@),
            },
        ),
        _ => Err(WireFault::Parse),
    }
}

/// The event of a log notification.
pub open spec fn log_event(params: JsonValue) -> Result<ClientEventView, WireFault> {
    match member::<LoggingLevel>(params, "level"@) {
        Some(level) => Ok(
            ClientEventView::LogMessage {
                level,
                logger: params.get_str("logger"@),
                data: match params.get("data"@) {
                    Some(d) => d,
                    None => JsonValue::Null,
                },
            },
        ),
        None => Err(WireFault::Parse),
    }
}

/// The event of a resource-updated notification.
pub open spec fn updated_event(params: JsonValue) -> Result<ClientEventView, WireFault> {
    match params.get_str("uri"@) {
        Some(uri) => Ok(ClientEventView::ResourceUpdated { uri }),
        None => Err(WireFault::Parse),
    }
}

/// The event that a notification other than a cancellation gives rise to.
/// A list-changed notification that the server did not advertise, a
/// notification without the parameters it needs, and an unknown
/// notification are protocol faults.
pub open spec fn notified(caps: Option<ServerCapabilitiesView>, n: NotificationView) -> Result<
    ClientEventView,
    WireFault,
> {
    if n.method == "notifications/progress"@ {
        match n.params {
            Some(params) => progress_event(params),
            None => Err(WireFault::Protocol),
        }
    } else if n.method == "notifications/resources/list_changed"@ {
        if may_announce(caps, n.method) {
            Ok(ClientEventView::ResourcesChanged)
        } else {
            Err(WireFault::Protocol)
        }
    } else if n.method == "notifications/resources/updated"@ {
        match n.params {
            Some(params) => updated_event(params),
            None => Err(WireFault::Protocol),
        }
    } else if n.method == "notifications/prompts/list_changed"@ {
        if may_announce(caps, n.method) {
            Ok(ClientEventView::PromptsChanged)
        } else {
            Err(WireFault::Protocol)
        }
    } else if n.method == "notifications/tools/list_changed"@ {
        if may_announce(caps, n.method) {
            Ok(ClientEventView::ToolsChanged)
        } else {
            Err(WireFault::Protocol)
        }
    } else if n.method == "notifications/message"@ {
        match n.params {
            Some(params) => log_event(params),
            None => Err(WireFault::Protocol),
        }
    } else {
        Err(WireFault::Protocol)
    }
}

/// The request that a cancellation names.
pub open spec fn cancelled_id(n: NotificationView) -> Result<IdView, WireFault> {
    match n.params {
        Some(params) => match member::<RequestId>(params, "requestId"@) {
            Some(id) => Ok(id),
            None => Err(WireFault::Parse),
        },
        None => Err(WireFault::Protocol),
    }
}

/// The reason that a cancellation gives; empty when it gives none.
pub open spec fn cancelled_reason(n: NotificationView) -> Seq<char> {
    match n.params {
        Some(params) => match params.get_str("reason"@) {
            Some(reason) => reason,
            None => Seq::empty(),
        },
        None => Seq::empty(),
    }
}

/// What the client does with a message that arrives.
///
/// A response or an error response is delivered to the slot of its id; one
/// whose id is not outstanding is a protocol fault. A cancellation of an
/// outstanding request fails its slot. A request of the server is answered
/// or handed on, a notification becomes an event, and a batch is a protocol
/// fault.
pub open spec fn inbound(
    pending: Map<IdView, PendingView>,
    caps: Option<ServerCapabilitiesView>,
    options: ClientOptions,
    m: MessageView,
) -> Result<InboundView, WireFault> {
    match m {
        MessageView::Response(r) => if pending.contains_key(r.id) {
            Ok(InboundView::Deliver { pending: pending[r.id], message: m })
        } else {
            Err(WireFault::Protocol)
        },
        MessageView::Error(e) => if pending.contains_key(e.id) {
            Ok(InboundView::Deliver { pending: pending[e.id], message: m })
        } else {
            Err(WireFault::Protocol)
        },
        MessageView::Request(r) => Ok(on_request(options, r)),
        MessageView::Notification(n) => if n.method == "notifications/cancelled"@ {
            match cancelled_id(n) {
                Ok(id) => if pending.contains_key(id) {
                    Ok(InboundView::Fail { id, pending: pending[id], reason: cancelled_reason(n) })
                } else {
                    Err(WireFault::Protocol)
                },
                Err(f) => Err(f),
            }
        } else {
            match notified(caps, n) {
                Ok(event) => Ok(InboundView::Emit { event }),
                Err(f) => Err(f),
            }
        },
        _ => Err(WireFault::Protocol),
    }
}

/// The correlation table after a message has arrived: the slot that the
/// message completes or cancels is removed.
pub open spec fn pending_after(pending: Map<IdView, PendingView>, m: MessageView) -> Map<
    IdView,
    PendingView,
> {
    match m {
        MessageView::Response(r) => pending.remove(r.id),
        MessageView::Error(e) => pending.remove(e.id),
        MessageView::Notification(n) => if n.method == "notifications/cancelled"@ {
            match cancelled_id(n) {
                Ok(id) => pending.remove(id),
                Err(_) => pending,
            }
        } else {
            pending
        },
        _ => pending,
    }
}

/// The event that an outcome puts on the event stream.
pub open spec fn emitted(outcome: Result<InboundView, WireFault>) -> Option<ClientEventView> {
    match outcome {
        Ok(InboundView::Emit { event }) => Some(event),
        Ok(InboundView::EmitAndReply { event, .. }) => Some(event),
        _ => None,
    }
}

/// The event that a message gives rise to, whatever is outstanding.
pub open spec fn event_of(
    caps: Option<ServerCapabilitiesView>,
    options: ClientOptions,
    m: MessageView,
) -> Option<ClientEventView> {
    emitted(inbound(Map::empty(), caps, options, m))
}

/// The events that a sequence of arriving messages gives rise to: those of
/// its messages, in the order in which the messages arrived.
pub open spec fn events_of(
    caps: Option<ServerCapabilitiesView>,
    options: ClientOptions,
    ms: Seq<MessageView>,
) -> Seq<ClientEventView>
    decreases ms.len(),
{
    if ms.len() == 0 {
        Seq::empty()
    } else {
        let before = events_of(caps, options, ms.drop_last());
        match event_of(caps, options, ms.last()) {
            Some(event) => before.push(event),
            None => before,
        }
    }
}

/// Whether a message gives rise to an event does not depend on what is
/// outstanding.
pub proof fn lemma_event_ignores_pending(
    pending: Map<IdView, PendingView>,
    caps: Option<ServerCapabilitiesView>,
    options: ClientOptions,
    m: MessageView,
)
    ensures
        emitted(inbound(pending, caps, options, m)) == event_of(caps, options, m),
{
}

/// Events keep the order of arrival: the events of two runs of messages,
/// one after the other, are the events of the first run followed by those of
/// the second.
pub proof fn lemma_events_in_arrival_order(
    caps: Option<ServerCapabilitiesView>,
    options: ClientOptions,
    first: Seq<MessageView>,
    second: Seq<MessageView>,
)
    ensures
        events_of(caps, options, first + second) == events_of(caps, options, first) + events_of(
            caps,
            options,
            second,
        ),
    decreases second.len(),
{
    if second.len() == 0 {
        assert(first + second =~= first);
        assert(events_of(caps, options, first) + Seq::<ClientEventView>::empty() =~= events_of(
            caps,
            options,
            first,
        ));
    } else {
        lemma_events_in_arrival_order(caps, options, first, second.drop_last());
        assert((first + second).drop_last() =~= first + second.drop_last());
        assert((first + second).last() == second.last());
        let head = events_of(caps, options, first);
        let tail = events_of(caps, options, second.drop_last());
        match event_of(caps, options, second.last()) {
            Some(event) => {
                assert((head + tail).push(event) =~= head + tail.push(event));
            },
            None => {},
        }
    }
}

/// The request that a message answers: the id of a response or of an error
/// response.
pub open spec fn answered(m: MessageView) -> Option<IdView> {
    match m {
        MessageView::Response(r) => Some(r.id),
        MessageView::Error(e) => Some(e.id),
        _ => None,
    }
}

/// A response or an error response is delivered exactly when its request is
/// outstanding, and it is delivered as it arrived.
pub proof fn lemma_delivered_when_outstanding(
    pending: Map<IdView, PendingView>,
    caps: Option<ServerCapabilitiesView>,
    options: ClientOptions,
    m: MessageView,
)
    requires
        answered(m) is Some,
    ensures
        inbound(pending, caps, options, m) is Ok <==> pending.contains_key(answered(m)->Some_0),
        inbound(pending, caps, options, m) matches Ok(outcome) ==> outcome
            == (InboundView::Deliver { pending: pending[answered(m)->Some_0], message: m }),
{
}

/// A request gets at most one outcome from its peer: once a message that
/// answers it has arrived, a second one for the same id is refused.
pub proof fn lemma_delivered_at_most_once(
    pending: Map<IdView, PendingView>,
    caps: Option<ServerCapabilitiesView>,
    options: ClientOptions,
    first: MessageView,
    second: MessageView,
)
    requires
        answered(first) is Some,
        answered(second) == answered(first),
    ensures
        inbound(pending_after(pending, first), caps, options, second) is Err,
{
}

/// A timeout and a delivery exclude each other. If the deadline passes
/// first, the slot is gone and the response that arrives late is refused;
/// if the response arrives first, the slot is gone and the timer finds
/// nothing to time out.
pub proof fn lemma_timeout_or_delivery(
    pending: Map<IdView, PendingView>,
    caps: Option<ServerCapabilitiesView>,
    options: ClientOptions,
    m: MessageView,
)
    requires
        answered(m) is Some,
    ensures
        inbound(pending.remove(answered(m)->Some_0), caps, options, m) is Err,
        !pending_after(pending, m).contains_key(answered(m)->Some_0),
{
}

/// The correlation table before the `k`-th of the messages that arrive.
pub open spec fn pending_before(
    pending: Map<IdView, PendingView>,
    ms: Seq<MessageView>,
    k: nat,
) -> Map<IdView, PendingView>
    decreases k,
{
    if k == 0 {
        pending
    } else {
        pending_after(pending_before(pending, ms, (k - 1) as nat), ms[k - 1])
    }
}

/// Whether an outcome of `handle_message` is the one that was to be
/// expected.
pub open spec fn as_expected(
    outcome: Result<Inbound, Error>,
    expected: Result<InboundView, WireFault>,
) -> bool {
    match outcome {
        Ok(o) => expected matches Ok(v) && v == o@,
        Err(e) => expected matches Err(f) && e.reports(f),
    }
}

/// The event that an outcome of `handle_message` puts on the event stream.
pub open spec fn outcome_event(outcome: Result<Inbound, Error>) -> Option<ClientEventView> {
    match outcome {
        Ok(o) => emitted(Ok(o@)),
        Err(_) => None,
    }
}

/// The events that a sequence of outcomes puts on the event stream, in
/// order.
pub open spec fn outcome_events(outcomes: Seq<Result<Inbound, Error>>) -> Seq<ClientEventView>
    decreases outcomes.len(),
{
    if outcomes.len() == 0 {
        Seq::empty()
    } else {
        let before = outcome_events(outcomes.drop_last());
        match outcome_event(outcomes.last()) {
            Some(event) => before.push(event),
            None => before,
        }
    }
}

/// Builds the error response "method not found".
fn reply_not_found(id: RequestId, message: &str) -> (r: JSONRPCMessage)
    ensures
        r@ == not_found(id@, message@),
{
    JSONRPCMessage::Error(JSONRPCError::new(id, METHOD_NOT_FOUND, message, None))
}

impl Client {
    /// Decides what to do with a request of the server.
    pub fn handle_request(&self, request: JSONRPCRequest) -> (r: Inbound)
        ensures
            r@ == on_request(self.options(), request@),
    {
        let options = self.options_ref();
        if str_eq(request.method.as_str(), "ping") {
            Inbound::Reply {
                reply: JSONRPCMessage::Response(
                    JSONRPCResponse::new(request.id, Json::empty_object()),
                ),
            }
        } else if str_eq(request.method.as_str(), "roots/list") {
            if !options.capabilities.roots {
                Inbound::Reply { reply: reply_not_found(request.id, "Client does not support roots") }
            } else if options.auto_acknowledge_roots_changed {
                let mut members: Vec<(String, Json)> = Vec::new();
                assert(members_view(members@) =~= Seq::empty());
                put(&mut members, "roots", Json::empty_array());
                Inbound::EmitAndReply {
                    event: ClientEvent::RootsChanged,
                    reply: JSONRPCMessage::Response(
                        JSONRPCResponse::new(request.id, Json::object(members)),
                    ),
                }
            } else {
                Inbound::Emit { event: ClientEvent::RootsChanged }
            }
        } else if str_eq(request.method.as_str(), "sampling/createMessage") {
            if !options.capabilities.sampling {
                Inbound::Reply {
                    reply: reply_not_found(request.id, "Client does not support sampling"),
                }
            } else {
                Inbound::Sample { request }
            }
        } else {
            let mut message = "Method not found: ".to_owned();
            message.append(request.method.as_str());
            Inbound::Reply { reply: reply_not_found(request.id, message.as_str()) }
        }
    }

    /// Decides which event a notification other than a cancellation gives
    /// rise to.
    pub fn handle_notification(&self, notification: &JSONRPCNotification) -> (r: Result<
        ClientEvent,
        Error,
    >)
        ensures
            match r {
                Ok(event) => notified(self.capabilities(), notification@) matches Ok(e) && e
                    == event@,
                Err(e) => notified(self.capabilities(), notification@) matches Err(f)
                    && e.reports(f),
            },
    {
        let method = notification.method.as_str();
        if str_eq(method, "notifications/progress") {
            match &notification.params {
                Some(params) => progress(params),
                None => Err(Error::protocol("Missing params in progress notification")),
            }
        } else if str_eq(method, "notifications/resources/list_changed") {
            if self.announces(method) {
                Ok(ClientEvent::ResourcesChanged)
            } else {
                Err(
                    Error::protocol("Server sent resources/list_changed but doesn't support it"),
                )
            }
        } else if str_eq(method, "notifications/resources/updated") {
            match &notification.params {
                Some(params) => match params.get_str("uri") {
                    Some(uri) => Ok(ClientEvent::ResourceUpdated { uri: uri.to_owned() }),
                    None => Err(Error::parse("Missing or invalid uri")),
                },
                None => Err(Error::protocol("Missing params in resource updated notification")),
            }
        } else if str_eq(method, "notifications/prompts/list_changed") {
            if self.announces(method) {
                Ok(ClientEvent::PromptsChanged)
            } else {
                Err(Error::protocol("Server sent prompts/list_changed but doesn't support it"))
            }
        } else if str_eq(method, "notifications/tools/list_changed") {
            if self.announces(method) {
                Ok(ClientEvent::ToolsChanged)
            } else {
                Err(Error::protocol("Server sent tools/list_changed but doesn't support it"))
            }
        } else if str_eq(method, "notifications/message") {
            match &notification.params {
                Some(params) => log_message(params),
                None => Err(Error::protocol("Missing params in logging notification")),
            }
        } else {
            Err(Error::protocol("Received unknown notification"))
        }
    }

    /// Whether the server advertised the list-changed notifications that
    /// the method announces.
    fn announces(&self, method: &str) -> (r: bool)
        ensures
            r == may_announce(self.capabilities(), method@),
    {
        match self.server_capabilities() {
            Some(c) => {
                if str_eq(method, "notifications/resources/list_changed") {
                    c.resources && c.resources_list_changed
                } else if str_eq(method, "notifications/prompts/list_changed") {
                    c.prompts && c.prompts_list_changed
                } else {
                    c.tools && c.tools_list_changed
                }
            },
            None => false,
        }
    }

    /// Handle an incoming message from the server.
    pub fn handle_message(&mut self, message: JSONRPCMessage) -> (r: Result<Inbound, Error>)
        requires
            old(self).wf(),
        ensures
            final(self).wf(),
            final(self).state() == old(self).state(),
            final(self).capabilities() == old(self).capabilities(),
            final(self).options() == old(self).options(),
            final(self).identity() == old(self).identity(),
            final(self).pending() == pending_after(old(self).pending(), message@),
            match r {
                Ok(outcome) => inbound(
                    old(self).pending(),
                    old(self).capabilities(),
                    old(self).options(),
                    message@,
                ) matches Ok(o) && o == outcome@,
                Err(e) => inbound(
                    old(self).pending(),
                    old(self).capabilities(),
                    old(self).options(),
                    message@,
                ) matches Err(f) && e.reports(f),
            },
    {
        match message {
            JSONRPCMessage::Request(request) => Ok(self.handle_request(request)),
            JSONRPCMessage::Response(response) => {
                match self.complete(&response.id) {
                    Some(pending) => Ok(
                        Inbound::Deliver { pending, message: JSONRPCMessage::Response(response) },
                    ),
                    None => Err(Error::protocol("Received response for unknown request")),
                }
            },
            JSONRPCMessage::Error(error) => {
                match self.complete(&error.id) {
                    Some(pending) => Ok(
                        Inbound::Deliver { pending, message: JSONRPCMessage::Error(error) },
                    ),
                    None => Err(Error::protocol("Received error for unknown request")),
                }
            },
            JSONRPCMessage::Notification(notification) => {
                if str_eq(notification.method.as_str(), "notifications/cancelled") {
                    let params = match &notification.params {
                        Some(params) => params,
                        None => {
                            return Err(
                                Error::protocol("Missing params in cancelled notification"),
                            );
                        },
                    };
                    let id = required::<RequestId>(params, "requestId")?;
                    let reason = match params.get_str("reason") {
                        Some(reason) => reason.to_owned(),
                        None => String::new(),
                    };
                    match self.complete(&id) {
                        Some(pending) => Ok(Inbound::Fail { id, pending, reason }),
                        None => Err(Error::protocol("Received cancellation for unknown request")),
                    }
                } else {
                    match self.handle_notification(&notification) {
                        Ok(event) => Ok(Inbound::Emit { event }),
                        Err(e) => Err(e),
                    }
                }
            },
            _ => Err(Error::protocol("Unsupported message type")),
        }
    }
}

impl Client {
    /// Handles the messages in the order in which they arrived. The
    /// outcomes come out in the same order, and so do the events among them.
    pub fn handle_messages(&mut self, messages: Vec<JSONRPCMessage>) -> (outcomes: Vec<
        Result<Inbound, Error>,
    >)
        requires
            old(self).wf(),
        ensures
            final(self).wf(),
            final(self).state() == old(self).state(),
            final(self).capabilities() == old(self).capabilities(),
            final(self).options() == old(self).options(),
            final(self).identity() == old(self).identity(),
            outcomes.len() == messages.len(),
            final(self).pending() == pending_before(
                old(self).pending(),
                views(messages@),
                messages.len() as nat,
            ),
            forall|k: int|
                0 <= k < outcomes.len() ==> as_expected(
                    #[trigger] outcomes[k],
                    inbound(
                        pending_before(old(self).pending(), views(messages@), k as nat),
                        old(self).capabilities(),
                        old(self).options(),
                        views(messages@)[k],
                    ),
                ),
            outcome_events(outcomes@) == events_of(
                old(self).capabilities(),
                old(self).options(),
                views(messages@),
            ),
    {
        let ghost arrived = views(messages@);
        let ghost caps = self.capabilities();
        let ghost options = self.options();
        let mut messages = messages;
        let mut outcomes: Vec<Result<Inbound, Error>> = Vec::new();
        let mut i: usize = 0;
        assert(arrived.len() == messages.len());
        assert(arrived.subrange(0, 0) =~= Seq::<MessageView>::empty());
        assert(views(messages@) =~= arrived.subrange(0, arrived.len() as int));
        while messages.len() > 0
            invariant
                self.wf(),
                self.state() == old(self).state(),
                self.capabilities() == caps,
                self.options() == options,
                self.identity() == old(self).identity(),
                i + messages.len() == arrived.len(),
                arrived.len() <= usize::MAX,
                outcomes.len() == i,
                self.pending() == pending_before(old(self).pending(), arrived, i as nat),
                forall|k: int|
                    0 <= k < i ==> as_expected(
                        #[trigger] outcomes[k],
                        inbound(
                            pending_before(old(self).pending(), arrived, k as nat),
                            caps,
                            options,
                            arrived[k],
                        ),
                    ),
                views(messages@) == arrived.subrange(i as int, arrived.len() as int),
                outcome_events(outcomes@) == events_of(caps, options, arrived.subrange(0, i as int)),
            decreases messages.len(),
        {
            let ghost rest = messages@;
            let ghost before = outcomes@;
            let ghost pending = self.pending();
            let message = messages.remove(0);
            assert(message@ == views(rest)[0]);
            assert(message@ == arrived[i as int]);
            let outcome = self.handle_message(message);
            proof {
                lemma_event_ignores_pending(pending, caps, options, arrived[i as int]);
                assert(outcome_event(outcome) == event_of(caps, options, arrived[i as int]));
            }
            outcomes.push(outcome);
            proof {
                assert(outcomes@.drop_last() =~= before);
                assert(arrived.subrange(0, i + 1).drop_last() =~= arrived.subrange(0, i as int));
                assert(arrived.subrange(0, i + 1).last() == arrived[i as int]);
                assert(messages@ =~= rest.remove(0));
                assert forall|k: int| 0 <= k < messages@.len() implies #[trigger] views(
                    messages@,
                )[k] == arrived[i + 1 + k] by {
                    assert(messages@[k] == rest[k + 1]);
                    assert(views(rest)[k + 1] == arrived.subrange(
                        i as int,
                        arrived.len() as int,
                    )[k + 1]);
                }
                assert(views(messages@) =~= arrived.subrange(i + 1, arrived.len() as int));
            }
            i += 1;
        }
        assert(arrived.subrange(0, i as int) =~= arrived);
        outcomes
    }
}

/// Reads the event of a progress notification.
fn progress(params: &Json) -> (r: Result<ClientEvent, Error>)
    ensures
        match r {
            Ok(event) => progress_event(params@) matches Ok(e) && e == event@,
            Err(e) => progress_event(params@) matches Err(f) && e.reports(f),
        },
{
    let token = required::<ProgressToken>(params, "progressToken")?;
    let progress = match params.get("progress") {
        Some(p) => match p.as_number() {
            Some(n) => n,
            None => {
                return Err(Error::parse("Missing or invalid progress"));
            },
        },
        None => {
            return Err(Error::parse("Missing or invalid progress"));
        },
    };
    let total = match params.get("total") {
        Some(t) => t.as_number(),
        None => None,
    };
    let message = match params.get_str("message") {
        Some(m) => Some(m.to_owned()),
        None => None,
    };
    Ok(
        ClientEvent::Progress {
            request_id: token.to_request_id(),
            token,
            progress,
            total,
            message,
        },
    )
}

/// Reads the event of a log notification.
fn log_message(params: &Json) -> (r: Result<ClientEvent, Error>)
    ensures
        match r {
            Ok(event) => log_event(params@) matches Ok(e) && e == event@,
            Err(e) => log_event(params@) matches Err(f) && e.reports(f),
        },
{
    let level = required::<LoggingLevel>(params, "level")?;
    let logger = match params.get_str("logger") {
        Some(l) => Some(l.to_owned()),
        None => None,
    };
    let data = match params.get("data") {
        Some(d) => d.duplicate(),
        None => Json::Null,
    };
    Ok(ClientEvent::LogMessage { level, logger, data })
}

/// What the receive loop does when the transport reports an error in place
/// of a message.
#[derive(Debug, Clone, PartialEq)]
pub enum Reception {
    /// What arrived could not be read: it is passed over and the session
    /// goes on.
    Skip,
    /// The transport failed: the session ends for the given reason.
    End { reason: String },
}

/// Whether an error of the transport leaves the session alive: it does
/// when only the message that arrived could not be read.
pub open spec fn passed_over(error: Error) -> bool {
    error is ParseError || error is ProtocolError
}

/// Decides what the receive loop does with an error of the transport: a
/// parse or protocol error is passed over, any other ends the session with
/// the text of the error as the reason.
pub fn on_receive_error(error: &Error) -> (r: Reception)
    ensures
        match r {
            Reception::Skip => passed_over(*error),
            Reception::End { reason } => !passed_over(*error) && reason@ == error.detail(),
        },
{
    match error {
        Error::ParseError(_) => Reception::Skip,
        Error::ProtocolError(_) => Reception::Skip,
        _ => Reception::End { reason: error.message() },
    }
}

/// The reply to the sampling request `id`, given what the sampling handler
/// of the application answered, or `None` where the application has none:
/// a result is sent back as it is, an error of the handler as an error
/// response, and without a handler the request fails with an internal
/// error.
pub open spec fn sampling_answer(id: IdView, outcome: Option<Result<Json, Error>>) -> MessageView {
    match outcome {
        Some(Ok(result)) => MessageView::Response(
            ResponseView { jsonrpc: "2.0"@, id, result: result@ },
        ),
        Some(Err(e)) => failure(id, e),
        None => MessageView::Error(
            ErrorView {
                jsonrpc: "2.0"@,
                id,
                error: ErrorInfoView {
                    code: INTERNAL_ERROR,
                    message: "No sampling handler"@,
                    data: None,
                },
            },
        ),
    }
}

/// Builds the reply to a sampling request.
pub fn sampling_reply(id: RequestId, outcome: Option<Result<Json, Error>>) -> (r: JSONRPCMessage)
    ensures
        r@ == sampling_answer(id@, outcome),
{
    match outcome {
        Some(Ok(result)) => JSONRPCMessage::Response(JSONRPCResponse::new(id, result)),
        Some(Err(e)) => match e {
            Error::ServerError(code, message, data) => JSONRPCMessage::Error(
                JSONRPCError::new(id, code, message.as_str(), data),
            ),
            other => {
                let message = other.message();
                JSONRPCMessage::Error(JSONRPCError::new(id, INTERNAL_ERROR, message.as_str(), None))
            },
        },
        None => JSONRPCMessage::Error(
            JSONRPCError::new(id, INTERNAL_ERROR, "No sampling handler", None),
        ),
    }
}

} // verus!
