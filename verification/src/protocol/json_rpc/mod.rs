//! JSON-RPC 2.0 envelopes and their wire codec.
//!
//! Every envelope has a mathematical value (`RequestView`, `MessageView`,
//! ...). `encode` and `decode` are specified as functions between those
//! values and [`JsonValue`]; the laws at the end of the file relate them.

pub mod error_codes;

use crate::error::{Error, WireFault};
use crate::json::{
    distinct_keys, duplicate_opt, find_key, items_view, Json, JsonValue, lemma_find_key, lookup,
    members_view, opt_view, push_opt, put, put_opt, put_str, str_eq,
};
use crate::protocol::{IdView, lemma_id_round_trip, RequestId};
use crate::protocol::messages::{MessageResult, Notification, Request};
use crate::protocol::wire::Wire;
use vstd::prelude::*;

verus! {

/// JSON-RPC version used by the MCP protocol.
pub const JSONRPC_VERSION: &'static str = "2.0";

/// A JSON-RPC request that expects a response.
#[derive(Debug, Clone, PartialEq)]
pub struct JSONRPCRequest {
    /// Always "2.0".
    pub jsonrpc: String,
    /// Request ID.
    pub id: RequestId,
    /// Method name.
    pub method: String,
    /// Optional parameters.
    pub params: Option<Json>,
}

/// A JSON-RPC notification that does not expect a response.
#[derive(Debug, Clone, PartialEq)]
pub struct JSONRPCNotification {
    /// Always "2.0".
    pub jsonrpc: String,
    /// Method name.
    pub method: String,
    /// Optional parameters.
    pub params: Option<Json>,
}

/// A successful JSON-RPC response.
#[derive(Debug, Clone, PartialEq)]
pub struct JSONRPCResponse {
    /// Always "2.0".
    pub jsonrpc: String,
    /// Request ID that this is responding to.
    pub id: RequestId,
    /// Result value.
    pub result: Json,
}

/// JSON-RPC error information.
#[derive(Debug, Clone, PartialEq)]
pub struct JSONRPCErrorInfo {
    /// Error code.
    pub code: i32,
    /// Error message.
    pub message: String,
    /// Optional additional error data.
    pub data: Option<Json>,
}

/// A JSON-RPC error response.
#[derive(Debug, Clone, PartialEq)]
pub struct JSONRPCError {
    /// Always "2.0".
    pub jsonrpc: String,
    /// Request ID that this is responding to.
    pub id: RequestId,
    /// Error information.
    pub error: JSONRPCErrorInfo,
}

/// An item in a JSON-RPC batch request.
#[derive(Debug, Clone, PartialEq)]
pub enum JSONRPCBatchRequestItem {
    /// A request that expects a response.
    Request(JSONRPCRequest),
    /// A notification that does not expect a response.
    Notification(JSONRPCNotification),
}

/// An item in a JSON-RPC batch response.
#[derive(Debug, Clone, PartialEq)]
pub enum JSONRPCBatchResponseItem {
    /// A successful response.
    Response(JSONRPCResponse),
    /// An error response.
    Error(JSONRPCError),
}

/// A JSON-RPC message that can be sent or received.
#[derive(Debug, Clone, PartialEq)]
pub enum JSONRPCMessage {
    /// A request that expects a response.
    Request(JSONRPCRequest),
    /// A notification that does not expect a response.
    Notification(JSONRPCNotification),
    /// A successful response to a request.
    Response(JSONRPCResponse),
    /// An error response to a request.
    Error(JSONRPCError),
    /// A batch of requests and/or notifications.
    BatchRequest(Vec<JSONRPCBatchRequestItem>),
    /// A batch of responses and/or errors.
    BatchResponse(Vec<JSONRPCBatchResponseItem>),
}

/// A batch of JSON-RPC requests or notifications.
pub type JSONRPCBatchRequest = Vec<JSONRPCBatchRequestItem>;

/// A batch of JSON-RPC responses or errors.
pub type JSONRPCBatchResponse = Vec<JSONRPCBatchResponseItem>;

pub struct RequestView {
    pub jsonrpc: Seq<char>,
    pub id: IdView,
    pub method: Seq<char>,
    pub params: Option<JsonValue>,
}

pub struct NotificationView {
    pub jsonrpc: Seq<char>,
    pub method: Seq<char>,
    pub params: Option<JsonValue>,
}

pub struct ResponseView {
    pub jsonrpc: Seq<char>,
    pub id: IdView,
    pub result: JsonValue,
}

pub struct ErrorInfoView {
    pub code: i32,
    pub message: Seq<char>,
    pub data: Option<JsonValue>,
}

pub struct ErrorView {
    pub jsonrpc: Seq<char>,
    pub id: IdView,
    pub error: ErrorInfoView,
}

pub enum BatchRequestItemView {
    Request(RequestView),
    Notification(NotificationView),
}

pub enum BatchResponseItemView {
    Response(ResponseView),
    Error(ErrorView),
}

pub enum MessageView {
    Request(RequestView),
    Notification(NotificationView),
    Response(ResponseView),
    Error(ErrorView),
    BatchRequest(Seq<BatchRequestItemView>),
    BatchResponse(Seq<BatchResponseItemView>),
}

impl View for JSONRPCRequest {
    type V = RequestView;

    open spec fn view(&self) -> RequestView {
        RequestView {
            jsonrpc: self.jsonrpc@,
            id: self.id@,
            method: self.method@,
            params: opt_view(self.params),
        }
    }
}

impl View for JSONRPCNotification {
    type V = NotificationView;

    open spec fn view(&self) -> NotificationView {
        NotificationView {
            jsonrpc: self.jsonrpc@,
            method: self.method@,
            params: opt_view(self.params),
        }
    }
}

impl View for JSONRPCResponse {
    type V = ResponseView;

    open spec fn view(&self) -> ResponseView {
        ResponseView { jsonrpc: self.jsonrpc@, id: self.id@, result: self.result@ }
    }
}

impl View for JSONRPCErrorInfo {
    type V = ErrorInfoView;

    open spec fn view(&self) -> ErrorInfoView {
        ErrorInfoView { code: self.code, message: self.message@, data: opt_view(self.data) }
    }
}

impl View for JSONRPCError {
    type V = ErrorView;

    open spec fn view(&self) -> ErrorView {
        ErrorView { jsonrpc: self.jsonrpc@, id: self.id@, error: self.error@ }
    }
}

impl View for JSONRPCBatchRequestItem {
    type V = BatchRequestItemView;

    open spec fn view(&self) -> BatchRequestItemView {
        match self {
            JSONRPCBatchRequestItem::Request(r) => BatchRequestItemView::Request(r@),
            JSONRPCBatchRequestItem::Notification(n) => BatchRequestItemView::Notification(n@),
        }
    }
}

impl View for JSONRPCBatchResponseItem {
    type V = BatchResponseItemView;

    open spec fn view(&self) -> BatchResponseItemView {
        match self {
            JSONRPCBatchResponseItem::Response(r) => BatchResponseItemView::Response(r@),
            JSONRPCBatchResponseItem::Error(e) => BatchResponseItemView::Error(e@),
        }
    }
}

/// The values of the items of a request batch.
pub open spec fn request_items_view(items: Seq<JSONRPCBatchRequestItem>) -> Seq<
    BatchRequestItemView,
> {
    Seq::new(items.len(), |i: int| items[i]@)
}

/// The values of the items of a response batch.
pub open spec fn response_items_view(items: Seq<JSONRPCBatchResponseItem>) -> Seq<
    BatchResponseItemView,
> {
    Seq::new(items.len(), |i: int| items[i]@)
}

impl View for JSONRPCMessage {
    type V = MessageView;

    open spec fn view(&self) -> MessageView {
        match self {
            JSONRPCMessage::Request(r) => MessageView::Request(r@),
            JSONRPCMessage::Notification(n) => MessageView::Notification(n@),
            JSONRPCMessage::Response(r) => MessageView::Response(r@),
            JSONRPCMessage::Error(e) => MessageView::Error(e@),
            JSONRPCMessage::BatchRequest(items) => MessageView::BatchRequest(
                request_items_view(items@),
            ),
            JSONRPCMessage::BatchResponse(items) => MessageView::BatchResponse(
                response_items_view(items@),
            ),
        }
    }
}

/// Whether the document carries `"jsonrpc": "2.0"`.
pub open spec fn version_ok(j: JsonValue) -> bool {
    j.get_str("jsonrpc"@) == Some("2.0"@)
}

/// The id carried by the document, if it has one of the right type.
pub open spec fn id_member(j: JsonValue) -> Option<IdView> {
    match j.get("id"@) {
        Some(v) => IdView::decode(v),
        None => None,
    }
}

impl RequestView {
    /// The wire form: `jsonrpc`, `id`, `method`, and `params` when present.
    pub open spec fn encode(self) -> JsonValue {
        JsonValue::Object(
            push_opt(
                Seq::empty().push(("jsonrpc"@, JsonValue::Str(self.jsonrpc))).push(
                    ("id"@, self.id.encode()),
                ).push(("method"@, JsonValue::Str(self.method))),
                "params"@,
                self.params,
            ),
        )
    }

    /// Reads a document that was classified as a request.
    pub open spec fn decode(j: JsonValue) -> Result<RequestView, WireFault> {
        match (id_member(j), j.get_str("method"@)) {
            (Some(id), Some(method)) => if version_ok(j) {
                Ok(
                    RequestView {
                        jsonrpc: "2.0"@,
                        id,
                        method,
                        params: j.get_present("params"@),
                    },
                )
            } else {
                Err(WireFault::Protocol)
            },
            _ => Err(WireFault::Parse),
        }
    }

    /// What the round-trip law asks of a request.
    pub open spec fn valid(self) -> bool {
        self.jsonrpc == "2.0"@ && self.params != Some(JsonValue::Null)
    }
}

impl NotificationView {
    /// The wire form: `jsonrpc`, `method`, and `params` when present.
    pub open spec fn encode(self) -> JsonValue {
        JsonValue::Object(
            push_opt(
                Seq::empty().push(("jsonrpc"@, JsonValue::Str(self.jsonrpc))).push(
                    ("method"@, JsonValue::Str(self.method)),
                ),
                "params"@,
                self.params,
            ),
        )
    }

    /// Reads a document that was classified as a notification.
    pub open spec fn decode(j: JsonValue) -> Result<NotificationView, WireFault> {
        match j.get_str("method"@) {
            Some(method) => if version_ok(j) {
                Ok(NotificationView { jsonrpc: "2.0"@, method, params: j.get_present("params"@) })
            } else {
                Err(WireFault::Protocol)
            },
            None => Err(WireFault::Parse),
        }
    }

    /// What the round-trip law asks of a notification.
    pub open spec fn valid(self) -> bool {
        self.jsonrpc == "2.0"@ && self.params != Some(JsonValue::Null)
    }
}

impl ResponseView {
    /// The wire form: `jsonrpc`, `id`, `result`.
    pub open spec fn encode(self) -> JsonValue {
        JsonValue::Object(
            Seq::empty().push(("jsonrpc"@, JsonValue::Str(self.jsonrpc))).push(
                ("id"@, self.id.encode()),
            ).push(("result"@, self.result)),
        )
    }

    /// Reads a document that was classified as a response.
    pub open spec fn decode(j: JsonValue) -> Result<ResponseView, WireFault> {
        match (id_member(j), j.get("result"@)) {
            (Some(id), Some(result)) => if version_ok(j) {
                Ok(ResponseView { jsonrpc: "2.0"@, id, result })
            } else {
                Err(WireFault::Protocol)
            },
            _ => Err(WireFault::Parse),
        }
    }

    /// What the round-trip law asks of a response.
    pub open spec fn valid(self) -> bool {
        self.jsonrpc == "2.0"@
    }
}

/// The `i32` that a document holds, if it is an integer in range.
pub open spec fn as_i32(j: JsonValue) -> Option<i32> {
    match j.as_i64() {
        Some(i) => if i32::MIN <= i <= i32::MAX {
            Some(i as i32)
        } else {
            None
        },
        None => None,
    }
}

impl ErrorInfoView {
    /// The wire form: `code`, `message`, and `data` when present.
    pub open spec fn encode(self) -> JsonValue {
        JsonValue::Object(
            push_opt(
                Seq::empty().push(("code"@, JsonValue::integer(self.code as i64))).push(
                    ("message"@, JsonValue::Str(self.message)),
                ),
                "data"@,
                self.data,
            ),
        )
    }

    /// Reads the error object of an error response.
    pub open spec fn decode(j: JsonValue) -> Option<ErrorInfoView> {
        match (j.get("code"@), j.get_str("message"@)) {
            (Some(c), Some(message)) => match as_i32(c) {
                Some(code) => Some(ErrorInfoView { code, message, data: j.get_present("data"@) }),
                None => None,
            },
            _ => None,
        }
    }

    /// What the round-trip law asks of an error object.
    pub open spec fn valid(self) -> bool {
        self.data != Some(JsonValue::Null)
    }
}

impl ErrorView {
    /// The wire form: `jsonrpc`, `id`, `error`.
    pub open spec fn encode(self) -> JsonValue {
        JsonValue::Object(
            Seq::empty().push(("jsonrpc"@, JsonValue::Str(self.jsonrpc))).push(
                ("id"@, self.id.encode()),
            ).push(("error"@, self.error.encode())),
        )
    }

    /// Reads a document that was classified as an error response.
    pub open spec fn decode(j: JsonValue) -> Result<ErrorView, WireFault> {
        match (id_member(j), j.get("error"@)) {
            (Some(id), Some(e)) => match ErrorInfoView::decode(e) {
                Some(error) => if version_ok(j) {
                    Ok(ErrorView { jsonrpc: "2.0"@, id, error })
                } else {
                    Err(WireFault::Protocol)
                },
                None => Err(WireFault::Parse),
            },
            _ => Err(WireFault::Parse),
        }
    }

    /// What the round-trip law asks of an error response.
    pub open spec fn valid(self) -> bool {
        self.jsonrpc == "2.0"@ && self.error.valid()
    }
}

impl BatchRequestItemView {
    pub open spec fn encode(self) -> JsonValue {
        match self {
            BatchRequestItemView::Request(r) => r.encode(),
            BatchRequestItemView::Notification(n) => n.encode(),
        }
    }

    pub open spec fn valid(self) -> bool {
        match self {
            BatchRequestItemView::Request(r) => r.valid(),
            BatchRequestItemView::Notification(n) => n.valid(),
        }
    }

    pub open spec fn message(self) -> MessageView {
        match self {
            BatchRequestItemView::Request(r) => MessageView::Request(r),
            BatchRequestItemView::Notification(n) => MessageView::Notification(n),
        }
    }
}

impl BatchResponseItemView {
    pub open spec fn encode(self) -> JsonValue {
        match self {
            BatchResponseItemView::Response(r) => r.encode(),
            BatchResponseItemView::Error(e) => e.encode(),
        }
    }

    pub open spec fn valid(self) -> bool {
        match self {
            BatchResponseItemView::Response(r) => r.valid(),
            BatchResponseItemView::Error(e) => e.valid(),
        }
    }

    pub open spec fn message(self) -> MessageView {
        match self {
            BatchResponseItemView::Response(r) => MessageView::Response(r),
            BatchResponseItemView::Error(e) => MessageView::Error(e),
        }
    }
}

/// Reads a document that is not an array. The keys decide the kind:
/// `method` with a non-null `id` is a request, `method` alone a
/// notification, else `result` a response, else `error` an error response.
pub open spec fn decode_single(j: JsonValue) -> Result<MessageView, WireFault> {
    if !(j is Object) {
        Err(WireFault::Protocol)
    } else if j.get("method"@) is Some {
        if j.get_present("id"@) is Some {
            match RequestView::decode(j) {
                Ok(r) => Ok(MessageView::Request(r)),
                Err(f) => Err(f),
            }
        } else {
            match NotificationView::decode(j) {
                Ok(n) => Ok(MessageView::Notification(n)),
                Err(f) => Err(f),
            }
        }
    } else if j.get("result"@) is Some {
        match ResponseView::decode(j) {
            Ok(r) => Ok(MessageView::Response(r)),
            Err(f) => Err(f),
        }
    } else if j.get("error"@) is Some {
        match ErrorView::decode(j) {
            Ok(e) => Ok(MessageView::Error(e)),
            Err(f) => Err(f),
        }
    } else {
        Err(WireFault::Protocol)
    }
}

/// Reads the first `n` elements of a batch, stopping at the first one that
/// cannot be read.
pub open spec fn decode_prefix(items: Seq<JsonValue>, n: nat) -> Result<
    Seq<MessageView>,
    WireFault,
>
    decreases n,
{
    if n == 0 {
        Ok(Seq::empty())
    } else {
        match decode_prefix(items, (n - 1) as nat) {
            Err(f) => Err(f),
            Ok(ms) => match decode_single(items[n - 1]) {
                Err(f) => Err(f),
                Ok(m) => Ok(ms.push(m)),
            },
        }
    }
}

impl MessageView {
    /// This message as an item of a request batch.
    pub open spec fn request_item(self) -> Option<BatchRequestItemView> {
        match self {
            MessageView::Request(r) => Some(BatchRequestItemView::Request(r)),
            MessageView::Notification(n) => Some(BatchRequestItemView::Notification(n)),
            _ => None,
        }
    }

    /// This message as an item of a response batch.
    pub open spec fn response_item(self) -> Option<BatchResponseItemView> {
        match self {
            MessageView::Response(r) => Some(BatchResponseItemView::Response(r)),
            MessageView::Error(e) => Some(BatchResponseItemView::Error(e)),
            _ => None,
        }
    }

    /// The wire form of the message.
    pub open spec fn encode(self) -> JsonValue {
        match self {
            MessageView::Request(r) => r.encode(),
            MessageView::Notification(n) => n.encode(),
            MessageView::Response(r) => r.encode(),
            MessageView::Error(e) => e.encode(),
            MessageView::BatchRequest(items) => JsonValue::Array(
                Seq::new(items.len(), |i: int| items[i].encode()),
            ),
            MessageView::BatchResponse(items) => JsonValue::Array(
                Seq::new(items.len(), |i: int| items[i].encode()),
            ),
        }
    }

    /// The messages for which reading back the wire form gives the message:
    /// the version is "2.0", no optional member holds `null`, and a request
    /// batch holds at least one request.
    pub open spec fn valid(self) -> bool {
        match self {
            MessageView::Request(r) => r.valid(),
            MessageView::Notification(n) => n.valid(),
            MessageView::Response(r) => r.valid(),
            MessageView::Error(e) => e.valid(),
            MessageView::BatchRequest(items) => {
                &&& forall|i: int| 0 <= i < items.len() ==> (#[trigger] items[i]).valid()
                &&& exists|i: int| 0 <= i < items.len() && (#[trigger] items[i]) is Request
            },
            MessageView::BatchResponse(items) => forall|i: int|
                0 <= i < items.len() ==> (#[trigger] items[i]).valid(),
        }
    }
}

/// Whether one of the messages is a request.
pub open spec fn has_request(ms: Seq<MessageView>) -> bool {
    exists|i: int| 0 <= i < ms.len() && (#[trigger] ms[i]) is Request
}

/// The messages as items of a request batch, if each is a request or a
/// notification.
pub open spec fn request_items(ms: Seq<MessageView>) -> Option<Seq<BatchRequestItemView>> {
    if forall|i: int| 0 <= i < ms.len() ==> (#[trigger] ms[i]).request_item() is Some {
        Some(Seq::new(ms.len(), |i: int| ms[i].request_item()->Some_0))
    } else {
        None
    }
}

/// The messages as items of a response batch, if each is a response or an
/// error.
pub open spec fn response_items(ms: Seq<MessageView>) -> Option<Seq<BatchResponseItemView>> {
    if forall|i: int| 0 <= i < ms.len() ==> (#[trigger] ms[i]).response_item() is Some {
        Some(Seq::new(ms.len(), |i: int| ms[i].response_item()->Some_0))
    } else {
        None
    }
}

/// Reads a batch: every element is read on its own; the batch is a request
/// batch if one element is a request, else a response batch; an element that
/// does not belong to the batch's kind is a protocol fault.
pub open spec fn decode_batch(items: Seq<JsonValue>) -> Result<MessageView, WireFault> {
    match decode_prefix(items, items.len()) {
        Err(f) => Err(f),
        Ok(ms) => if has_request(ms) {
            match request_items(ms) {
                Some(v) => Ok(MessageView::BatchRequest(v)),
                None => Err(WireFault::Protocol),
            }
        } else {
            match response_items(ms) {
                Some(v) => Ok(MessageView::BatchResponse(v)),
                None => Err(WireFault::Protocol),
            }
        },
    }
}

/// Reads an incoming document as a message.
pub open spec fn decode_message(j: JsonValue) -> Result<MessageView, WireFault> {
    match j {
        JsonValue::Array(items) => decode_batch(items),
        _ => decode_single(j),
    }
}

/// Whether the document carries `"jsonrpc": "2.0"`.
fn has_version(j: &Json) -> (r: bool)
    ensures
        r == version_ok(j@),
{
    match j.get_str("jsonrpc") {
        Some(v) => str_eq(v, JSONRPC_VERSION),
        None => false,
    }
}

/// The id member of the document.
fn read_id(j: &Json) -> (r: Option<RequestId>)
    ensures
        match r {
            Some(id) => id_member(j@) == Some(id@),
            None => id_member(j@) is None,
        },
{
    match j.get("id") {
        Some(v) => match RequestId::from_json(v) {
            Ok(id) => Some(id),
            Err(_) => None,
        },
        None => None,
    }
}

/// The `i32` that a document holds.
fn read_i32(j: &Json) -> (r: Option<i32>)
    ensures
        r == as_i32(j@),
{
    match j.as_i64() {
        Some(i) => if -2147483648 <= i && i <= 2147483647 {
            Some(i as i32)
        } else {
            None
        },
        None => None,
    }
}

impl JSONRPCRequest {
    /// Create a new JSON-RPC request.
    pub fn new(id: RequestId, method: &str, params: Option<Json>) -> (r: JSONRPCRequest)
        ensures
            r@ == (RequestView {
                jsonrpc: "2.0"@,
                id: id@,
                method: method@,
                params: opt_view(params),
            }),
    {
        JSONRPCRequest { jsonrpc: JSONRPC_VERSION.to_owned(), id, method: method.to_owned(), params }
    }

    /// Create a new JSON-RPC request from a Request object.
    pub fn from_request<T: Request>(id: RequestId, request: &T) -> (r: JSONRPCRequest)
        ensures
            r@ == (RequestView {
                jsonrpc: "2.0"@,
                id: id@,
                method: request.method_name(),
                params: request.params_value(),
            }),
    {
        JSONRPCRequest::new(id, request.method(), request.params())
    }

    /// Writes the wire form.
    pub fn encode(&self) -> (j: Json)
        ensures
            j@ == self@.encode(),
    {
        let mut members: Vec<(String, Json)> = Vec::new();
        assert(members_view(members@) =~= Seq::empty());
        put_str(&mut members, "jsonrpc", self.jsonrpc.as_str());
        put(&mut members, "id", self.id.to_json());
        put_str(&mut members, "method", self.method.as_str());
        put_opt(&mut members, "params", duplicate_opt(&self.params));
        Json::object(members)
    }

    /// Reads a document that was classified as a request.
    pub fn decode(j: &Json) -> (r: Result<JSONRPCRequest, Error>)
        ensures
            match r {
                Ok(v) => RequestView::decode(j@) matches Ok(w) && w == v@,
                Err(e) => RequestView::decode(j@) matches Err(f) && e.reports(f),
            },
    {
        let id = match read_id(j) {
            Some(id) => id,
            None => {
                return Err(Error::parse("missing or invalid id"));
            },
        };
        let method = match j.get_str("method") {
            Some(m) => m.to_owned(),
            None => {
                return Err(Error::parse("missing or invalid method"));
            },
        };
        if !has_version(j) {
            return Err(Error::protocol("jsonrpc must be \"2.0\""));
        }
        let params = match j.get_present("params") {
            Some(p) => Some(p.duplicate()),
            None => None,
        };
        Ok(JSONRPCRequest { jsonrpc: JSONRPC_VERSION.to_owned(), id, method, params })
    }
}

impl JSONRPCNotification {
    /// Create a new JSON-RPC notification.
    pub fn new(method: &str, params: Option<Json>) -> (r: JSONRPCNotification)
        ensures
            r@ == (NotificationView {
                jsonrpc: "2.0"@,
                method: method@,
                params: opt_view(params),
            }),
    {
        JSONRPCNotification { jsonrpc: JSONRPC_VERSION.to_owned(), method: method.to_owned(), params }
    }

    /// Create a new JSON-RPC notification from a Notification object.
    pub fn from_notification<T: Notification>(notification: &T) -> (r: JSONRPCNotification)
        ensures
            r@ == (NotificationView {
                jsonrpc: "2.0"@,
                method: notification.method_name(),
                params: notification.params_value(),
            }),
    {
        JSONRPCNotification::new(notification.method(), notification.params())
    }

    /// Writes the wire form.
    pub fn encode(&self) -> (j: Json)
        ensures
            j@ == self@.encode(),
    {
        let mut members: Vec<(String, Json)> = Vec::new();
        assert(members_view(members@) =~= Seq::empty());
        put_str(&mut members, "jsonrpc", self.jsonrpc.as_str());
        put_str(&mut members, "method", self.method.as_str());
        put_opt(&mut members, "params", duplicate_opt(&self.params));
        Json::object(members)
    }

    /// Reads a document that was classified as a notification.
    pub fn decode(j: &Json) -> (r: Result<JSONRPCNotification, Error>)
        ensures
            match r {
                Ok(v) => NotificationView::decode(j@) matches Ok(w) && w == v@,
                Err(e) => NotificationView::decode(j@) matches Err(f) && e.reports(f),
            },
    {
        let method = match j.get_str("method") {
            Some(m) => m.to_owned(),
            None => {
                return Err(Error::parse("missing or invalid method"));
            },
        };
        if !has_version(j) {
            return Err(Error::protocol("jsonrpc must be \"2.0\""));
        }
        let params = match j.get_present("params") {
            Some(p) => Some(p.duplicate()),
            None => None,
        };
        Ok(JSONRPCNotification { jsonrpc: JSONRPC_VERSION.to_owned(), method, params })
    }
}

impl JSONRPCResponse {
    /// Create a new JSON-RPC response.
    pub fn new(id: RequestId, result: Json) -> (r: JSONRPCResponse)
        ensures
            r@ == (ResponseView { jsonrpc: "2.0"@, id: id@, result: result@ }),
    {
        JSONRPCResponse { jsonrpc: JSONRPC_VERSION.to_owned(), id, result }
    }

    /// Create a new JSON-RPC response from a result object.
    pub fn from_result<T: MessageResult + Wire>(id: RequestId, result: &T) -> (r: JSONRPCResponse)
        ensures
            r@ == (ResponseView { jsonrpc: "2.0"@, id: id@, result: T::encode(result@) }),
    {
        JSONRPCResponse::new(id, result.to_json())
    }

    /// Writes the wire form.
    pub fn encode(&self) -> (j: Json)
        ensures
            j@ == self@.encode(),
    {
        let mut members: Vec<(String, Json)> = Vec::new();
        assert(members_view(members@) =~= Seq::empty());
        put_str(&mut members, "jsonrpc", self.jsonrpc.as_str());
        put(&mut members, "id", self.id.to_json());
        put(&mut members, "result", self.result.duplicate());
        Json::object(members)
    }

    /// Reads a document that was classified as a response.
    pub fn decode(j: &Json) -> (r: Result<JSONRPCResponse, Error>)
        ensures
            match r {
                Ok(v) => ResponseView::decode(j@) matches Ok(w) && w == v@,
                Err(e) => ResponseView::decode(j@) matches Err(f) && e.reports(f),
            },
    {
        let id = match read_id(j) {
            Some(id) => id,
            None => {
                return Err(Error::parse("missing or invalid id"));
            },
        };
        let result = match j.get("result") {
            Some(v) => v.duplicate(),
            None => {
                return Err(Error::parse("missing result"));
            },
        };
        if !has_version(j) {
            return Err(Error::protocol("jsonrpc must be \"2.0\""));
        }
        Ok(JSONRPCResponse { jsonrpc: JSONRPC_VERSION.to_owned(), id, result })
    }
}

impl JSONRPCErrorInfo {
    /// Writes the wire form.
    pub fn encode(&self) -> (j: Json)
        ensures
            j@ == self@.encode(),
    {
        let mut members: Vec<(String, Json)> = Vec::new();
        assert(members_view(members@) =~= Seq::empty());
        put(&mut members, "code", Json::integer(self.code as i64));
        put_str(&mut members, "message", self.message.as_str());
        put_opt(&mut members, "data", duplicate_opt(&self.data));
        Json::object(members)
    }

    /// Reads the error object of an error response.
    pub fn decode(j: &Json) -> (r: Option<JSONRPCErrorInfo>)
        ensures
            match r {
                Some(v) => ErrorInfoView::decode(j@) == Some(v@),
                None => ErrorInfoView::decode(j@) is None,
            },
    {
        let code = match j.get("code") {
            Some(c) => match read_i32(c) {
                Some(code) => code,
                None => {
                    return None;
                },
            },
            None => {
                return None;
            },
        };
        let message = match j.get_str("message") {
            Some(m) => m.to_owned(),
            None => {
                return None;
            },
        };
        let data = match j.get_present("data") {
            Some(d) => Some(d.duplicate()),
            None => None,
        };
        Some(JSONRPCErrorInfo { code, message, data })
    }
}

impl JSONRPCError {
    /// Create a new JSON-RPC error.
    pub fn new(id: RequestId, code: i32, message: &str, data: Option<Json>) -> (r: JSONRPCError)
        ensures
            r@ == (ErrorView {
                jsonrpc: "2.0"@,
                id: id@,
                error: ErrorInfoView { code, message: message@, data: opt_view(data) },
            }),
    {
        JSONRPCError {
            jsonrpc: JSONRPC_VERSION.to_owned(),
            id,
            error: JSONRPCErrorInfo { code, message: message.to_owned(), data },
        }
    }

    /// Writes the wire form.
    pub fn encode(&self) -> (j: Json)
        ensures
            j@ == self@.encode(),
    {
        let mut members: Vec<(String, Json)> = Vec::new();
        assert(members_view(members@) =~= Seq::empty());
        put_str(&mut members, "jsonrpc", self.jsonrpc.as_str());
        put(&mut members, "id", self.id.to_json());
        put(&mut members, "error", self.error.encode());
        Json::object(members)
    }

    /// Reads a document that was classified as an error response.
    pub fn decode(j: &Json) -> (r: Result<JSONRPCError, Error>)
        ensures
            match r {
                Ok(v) => ErrorView::decode(j@) matches Ok(w) && w == v@,
                Err(e) => ErrorView::decode(j@) matches Err(f) && e.reports(f),
            },
    {
        let id = match read_id(j) {
            Some(id) => id,
            None => {
                return Err(Error::parse("missing or invalid id"));
            },
        };
        let error = match j.get("error") {
            Some(e) => match JSONRPCErrorInfo::decode(e) {
                Some(info) => info,
                None => {
                    return Err(Error::parse("invalid error object"));
                },
            },
            None => {
                return Err(Error::parse("missing error"));
            },
        };
        if !has_version(j) {
            return Err(Error::protocol("jsonrpc must be \"2.0\""));
        }
        Ok(JSONRPCError { jsonrpc: JSONRPC_VERSION.to_owned(), id, error })
    }
}

impl JSONRPCBatchRequestItem {
    /// Writes the wire form.
    pub fn encode(&self) -> (j: Json)
        ensures
            j@ == self@.encode(),
    {
        match self {
            JSONRPCBatchRequestItem::Request(r) => r.encode(),
            JSONRPCBatchRequestItem::Notification(n) => n.encode(),
        }
    }
}

impl JSONRPCBatchResponseItem {
    /// Writes the wire form.
    pub fn encode(&self) -> (j: Json)
        ensures
            j@ == self@.encode(),
    {
        match self {
            JSONRPCBatchResponseItem::Response(r) => r.encode(),
            JSONRPCBatchResponseItem::Error(e) => e.encode(),
        }
    }
}

/// Once an element cannot be read, no longer prefix can.
pub proof fn lemma_prefix_fault(items: Seq<JsonValue>, i: nat, n: nat, f: WireFault)
    requires
        i < n,
        decode_prefix(items, i) is Ok,
        decode_single(items[i as int]) == Err::<MessageView, WireFault>(f),
    ensures
        decode_prefix(items, n) == Err::<Seq<MessageView>, WireFault>(f),
    decreases n,
{
    if n > i + 1 {
        lemma_prefix_fault(items, i, (n - 1) as nat, f);
    }
}

impl JSONRPCMessage {
    /// Writes the wire form of the message.
    pub fn encode(&self) -> (j: Json)
        ensures
            j@ == self@.encode(),
    {
        match self {
            JSONRPCMessage::Request(r) => r.encode(),
            JSONRPCMessage::Notification(n) => n.encode(),
            JSONRPCMessage::Response(r) => r.encode(),
            JSONRPCMessage::Error(e) => e.encode(),
            JSONRPCMessage::BatchRequest(items) => {
                let mut out: Vec<Json> = Vec::new();
                let mut i: usize = 0;
                while i < items.len()
                    invariant
                        i <= items.len(),
                        out.len() == i,
                        forall|k: int| 0 <= k < i ==> out@[k]@ == items@[k]@.encode(),
                    decreases items.len() - i,
                {
                    out.push(items[i].encode());
                    i += 1;
                }
                assert(items_view(out@) =~= self@.encode()->Array_0);
                Json::array(out)
            },
            JSONRPCMessage::BatchResponse(items) => {
                let mut out: Vec<Json> = Vec::new();
                let mut i: usize = 0;
                while i < items.len()
                    invariant
                        i <= items.len(),
                        out.len() == i,
                        forall|k: int| 0 <= k < i ==> out@[k]@ == items@[k]@.encode(),
                    decreases items.len() - i,
                {
                    out.push(items[i].encode());
                    i += 1;
                }
                assert(items_view(out@) =~= self@.encode()->Array_0);
                Json::array(out)
            },
        }
    }

    /// Reads an incoming document as a message.
    ///
    /// A field of the wrong type gives `ParseError`; a document that is no
    /// envelope, carries another version, or mixes requests and responses in
    /// one batch gives `ProtocolError`.
    pub fn decode(j: &Json) -> (r: Result<JSONRPCMessage, Error>)
        ensures
            match r {
                Ok(m) => decode_message(j@) matches Ok(w) && w == m@,
                Err(e) => decode_message(j@) matches Err(f) && e.reports(f),
            },
    {
        match j.as_array() {
            Some(items) => Self::decode_many(items),
            None => Self::decode_one(j),
        }
    }

    /// Reads a document that is not an array.
    pub fn decode_one(j: &Json) -> (r: Result<JSONRPCMessage, Error>)
        ensures
            match r {
                Ok(m) => decode_single(j@) matches Ok(w) && w == m@,
                Err(e) => decode_single(j@) matches Err(f) && e.reports(f),
            },
    {
        if !j.is_object() {
            return Err(Error::protocol("not a JSON-RPC envelope"));
        }
        if j.get("method").is_some() {
            if j.get_present("id").is_some() {
                match JSONRPCRequest::decode(j) {
                    Ok(r) => Ok(JSONRPCMessage::Request(r)),
                    Err(e) => Err(e),
                }
            } else {
                match JSONRPCNotification::decode(j) {
                    Ok(n) => Ok(JSONRPCMessage::Notification(n)),
                    Err(e) => Err(e),
                }
            }
        } else if j.get("result").is_some() {
            match JSONRPCResponse::decode(j) {
                Ok(r) => Ok(JSONRPCMessage::Response(r)),
                Err(e) => Err(e),
            }
        } else if j.get("error").is_some() {
            match JSONRPCError::decode(j) {
                Ok(e) => Ok(JSONRPCMessage::Error(e)),
                Err(e) => Err(e),
            }
        } else {
            Err(Error::protocol("not a JSON-RPC envelope"))
        }
    }

    /// Reads the elements of a batch.
    pub fn decode_many(items: &Vec<Json>) -> (r: Result<JSONRPCMessage, Error>)
        ensures
            match r {
                Ok(m) => decode_batch(items_view(items@)) matches Ok(w) && w == m@,
                Err(e) => decode_batch(items_view(items@)) matches Err(f) && e.reports(f),
            },
    {
        let ghost docs = items_view(items@);
        let mut requests: Vec<JSONRPCBatchRequestItem> = Vec::new();
        let mut responses: Vec<JSONRPCBatchResponseItem> = Vec::new();
        let mut all_requests = true;
        let mut all_responses = true;
        let mut any_request = false;
        let ghost mut ms: Seq<MessageView> = Seq::empty();
        let mut i: usize = 0;
        while i < items.len()
            invariant
                i <= items.len(),
                docs == items_view(items@),
                decode_prefix(docs, i as nat) == Ok::<Seq<MessageView>, WireFault>(ms),
                ms.len() == i,
                any_request == has_request(ms),
                all_requests == (forall|k: int|
                    0 <= k < ms.len() ==> (#[trigger] ms[k]).request_item() is Some),
                all_responses == (forall|k: int|
                    0 <= k < ms.len() ==> (#[trigger] ms[k]).response_item() is Some),
                all_requests ==> requests.len() == i && forall|k: int|
                    0 <= k < i ==> Some((#[trigger] requests@[k])@) == ms[k].request_item(),
                all_responses ==> responses.len() == i && forall|k: int|
                    0 <= k < i ==> Some((#[trigger] responses@[k])@) == ms[k].response_item(),
            decreases items.len() - i,
        {
            let ghost before = ms;
            match Self::decode_one(&items[i]) {
                Err(e) => {
                    proof {
                        let f = decode_single(docs[i as int])->Err_0;
                        lemma_prefix_fault(docs, i as nat, docs.len(), f);
                    }
                    return Err(e);
                },
                Ok(m) => {
                    proof {
                        ms = ms.push(m@);
                        assert(forall|k: int| 0 <= k < before.len() ==> ms[k] == before[k]);
                        assert(ms[i as int] == m@);
                        if has_request(before) {
                            let w = choose|k: int| 0 <= k < before.len() && before[k] is Request;
                            assert(ms[w] is Request);
                        }
                    }
                    match m {
                        JSONRPCMessage::Request(r) => {
                            any_request = true;
                            all_responses = false;
                            if all_requests {
                                requests.push(JSONRPCBatchRequestItem::Request(r));
                            }
                        },
                        JSONRPCMessage::Notification(n) => {
                            all_responses = false;
                            if all_requests {
                                requests.push(JSONRPCBatchRequestItem::Notification(n));
                            }
                        },
                        JSONRPCMessage::Response(r) => {
                            all_requests = false;
                            if all_responses {
                                responses.push(JSONRPCBatchResponseItem::Response(r));
                            }
                        },
                        JSONRPCMessage::Error(e) => {
                            all_requests = false;
                            if all_responses {
                                responses.push(JSONRPCBatchResponseItem::Error(e));
                            }
                        },
                        _ => {
                            all_requests = false;
                            all_responses = false;
                        },
                    }
                },
            }
            i += 1;
        }
        if any_request {
            if all_requests {
                assert(request_items_view(requests@) =~= request_items(ms)->Some_0);
                Ok(JSONRPCMessage::BatchRequest(requests))
            } else {
                Err(Error::protocol("a response inside a request batch"))
            }
        } else {
            if all_responses {
                assert(response_items_view(responses@) =~= response_items(ms)->Some_0);
                Ok(JSONRPCMessage::BatchResponse(responses))
            } else {
                Err(Error::protocol("a notification inside a response batch"))
            }
        }
    }
}


/// The member names of the envelopes are pairwise different.
pub proof fn lemma_envelope_keys()
    ensures
        "jsonrpc"@ != "id"@,
        "jsonrpc"@ != "method"@,
        "jsonrpc"@ != "params"@,
        "jsonrpc"@ != "result"@,
        "jsonrpc"@ != "error"@,
        "id"@ != "method"@,
        "id"@ != "params"@,
        "id"@ != "result"@,
        "id"@ != "error"@,
        "method"@ != "params"@,
        "method"@ != "result"@,
        "method"@ != "error"@,
        "params"@ != "result"@,
        "params"@ != "error"@,
        "result"@ != "error"@,
        "code"@ != "message"@,
        "code"@ != "data"@,
        "message"@ != "data"@,
{
    reveal_strlit("jsonrpc");
    reveal_strlit("id");
    reveal_strlit("method");
    reveal_strlit("params");
    reveal_strlit("result");
    reveal_strlit("error");
    reveal_strlit("code");
    reveal_strlit("message");
    reveal_strlit("data");
    assert("jsonrpc"@.len() == 7 && "id"@.len() == 2 && "method"@.len() == 6 && "params"@.len()
        == 6 && "result"@.len() == 6 && "error"@.len() == 5 && "code"@.len() == 4
        && "message"@.len() == 7 && "data"@.len() == 4);
    assert("method"@[0] == 'm' && "params"@[0] == 'p' && "result"@[0] == 'r');
    assert("code"@[0] == 'c' && "data"@[0] == 'd');
}

/// Reading back the wire form of a valid request gives the request.
pub proof fn lemma_request_round_trip(r: RequestView)
    requires
        r.valid(),
    ensures
        decode_single(r.encode()) == Ok::<MessageView, WireFault>(MessageView::Request(r)),
{
    lemma_envelope_keys();
    lemma_id_round_trip(r.id);
    reveal_with_fuel(find_key, 5);
}

/// Reading back the wire form of a valid notification gives the
/// notification.
pub proof fn lemma_notification_round_trip(n: NotificationView)
    requires
        n.valid(),
    ensures
        decode_single(n.encode()) == Ok::<MessageView, WireFault>(MessageView::Notification(n)),
{
    lemma_envelope_keys();
    reveal_with_fuel(find_key, 5);
}

/// Reading back the wire form of a valid response gives the response.
pub proof fn lemma_response_round_trip(r: ResponseView)
    requires
        r.valid(),
    ensures
        decode_single(r.encode()) == Ok::<MessageView, WireFault>(MessageView::Response(r)),
{
    lemma_envelope_keys();
    lemma_id_round_trip(r.id);
    reveal_with_fuel(find_key, 5);
}

/// Reading back the wire form of a valid error object gives the object.
pub proof fn lemma_error_info_round_trip(e: ErrorInfoView)
    requires
        e.valid(),
    ensures
        ErrorInfoView::decode(e.encode()) == Some(e),
{
    lemma_envelope_keys();
    reveal_with_fuel(find_key, 5);
}

/// Reading back the wire form of a valid error response gives the error
/// response.
pub proof fn lemma_error_round_trip(e: ErrorView)
    requires
        e.valid(),
    ensures
        decode_single(e.encode()) == Ok::<MessageView, WireFault>(MessageView::Error(e)),
{
    lemma_envelope_keys();
    lemma_id_round_trip(e.id);
    lemma_error_info_round_trip(e.error);
    reveal_with_fuel(find_key, 5);
}

/// Reading the wire forms of valid request-batch items gives the items.
proof fn lemma_request_items_round_trip(items: Seq<BatchRequestItemView>, n: nat)
    requires
        n <= items.len(),
        forall|i: int| 0 <= i < items.len() ==> (#[trigger] items[i]).valid(),
    ensures
        decode_prefix(Seq::new(items.len(), |i: int| items[i].encode()), n) == Ok::<
            Seq<MessageView>,
            WireFault,
        >(Seq::new(n, |i: int| items[i].message())),
    decreases n,
{
    let docs = Seq::new(items.len(), |i: int| items[i].encode());
    if n == 0 {
        assert(Seq::new(n, |i: int| items[i].message()) =~= Seq::<MessageView>::empty());
    } else {
        lemma_request_items_round_trip(items, (n - 1) as nat);
        let item = items[n - 1];
        assert(item.valid());
        match item {
            BatchRequestItemView::Request(r) => lemma_request_round_trip(r),
            BatchRequestItemView::Notification(x) => lemma_notification_round_trip(x),
        }
        assert(docs[n - 1] == item.encode());
        assert(Seq::new((n - 1) as nat, |i: int| items[i].message()).push(item.message())
            =~= Seq::new(n, |i: int| items[i].message()));
    }
}

/// Reading the wire forms of valid response-batch items gives the items.
proof fn lemma_response_items_round_trip(items: Seq<BatchResponseItemView>, n: nat)
    requires
        n <= items.len(),
        forall|i: int| 0 <= i < items.len() ==> (#[trigger] items[i]).valid(),
    ensures
        decode_prefix(Seq::new(items.len(), |i: int| items[i].encode()), n) == Ok::<
            Seq<MessageView>,
            WireFault,
        >(Seq::new(n, |i: int| items[i].message())),
    decreases n,
{
    let docs = Seq::new(items.len(), |i: int| items[i].encode());
    if n == 0 {
        assert(Seq::new(n, |i: int| items[i].message()) =~= Seq::<MessageView>::empty());
    } else {
        lemma_response_items_round_trip(items, (n - 1) as nat);
        let item = items[n - 1];
        assert(item.valid());
        match item {
            BatchResponseItemView::Response(r) => lemma_response_round_trip(r),
            BatchResponseItemView::Error(e) => lemma_error_round_trip(e),
        }
        assert(docs[n - 1] == item.encode());
        assert(Seq::new((n - 1) as nat, |i: int| items[i].message()).push(item.message())
            =~= Seq::new(n, |i: int| items[i].message()));
    }
}

/// The codec round trip: for every valid message, decoding its wire form
/// gives the message back.
pub proof fn lemma_decode_encode(m: MessageView)
    requires
        m.valid(),
    ensures
        decode_message(m.encode()) == Ok::<MessageView, WireFault>(m),
{
    match m {
        MessageView::Request(r) => lemma_request_round_trip(r),
        MessageView::Notification(n) => lemma_notification_round_trip(n),
        MessageView::Response(r) => lemma_response_round_trip(r),
        MessageView::Error(e) => lemma_error_round_trip(e),
        MessageView::BatchRequest(items) => {
            lemma_request_items_round_trip(items, items.len());
            let ms = Seq::new(items.len(), |i: int| items[i].message());
            let w = choose|i: int| 0 <= i < items.len() && (#[trigger] items[i]) is Request;
            assert(ms[w] is Request);
            assert forall|i: int| 0 <= i < ms.len() implies (#[trigger] ms[i]).request_item()
                == Some(items[i]) by {
                assert(ms[i] == items[i].message());
            }
            assert(request_items(ms)->Some_0 =~= items);
        },
        MessageView::BatchResponse(items) => {
            lemma_response_items_round_trip(items, items.len());
            let ms = Seq::new(items.len(), |i: int| items[i].message());
            assert forall|i: int| 0 <= i < ms.len() implies (#[trigger] ms[i]).response_item()
                == Some(items[i]) by {
                assert(ms[i] == items[i].message());
            }
            assert(!has_request(ms));
            assert(response_items(ms)->Some_0 =~= items);
        },
    }
}


/// What `decode_prefix` returns holds one message per element read.
proof fn lemma_prefix_items(items: Seq<JsonValue>, n: nat)
    requires
        n <= items.len(),
        decode_prefix(items, n) is Ok,
    ensures
        decode_prefix(items, n)->Ok_0.len() == n,
        forall|i: int|
            0 <= i < n ==> decode_single(#[trigger] items[i]) == Ok::<MessageView, WireFault>(
                decode_prefix(items, n)->Ok_0[i],
            ),
    decreases n,
{
    if n > 0 {
        lemma_prefix_items(items, (n - 1) as nat);
    }
}

/// An envelope whose wire form decodes to the envelope itself is valid.
proof fn lemma_envelope_needs_valid(m: MessageView)
    requires
        !(m is BatchRequest),
        !(m is BatchResponse),
        decode_single(m.encode()) == Ok::<MessageView, WireFault>(m),
    ensures
        m.valid(),
{
    lemma_envelope_keys();
    reveal_with_fuel(find_key, 5);
    match m {
        MessageView::Error(e) => {
            if e.error.data == Some(JsonValue::Null) {
                assert(ErrorInfoView::decode(e.error.encode())->Some_0.data is None);
            }
        },
        _ => {},
    }
}

/// The round trip holds of the valid messages only: a message whose wire
/// form decodes to the message itself is valid.
pub proof fn lemma_round_trip_needs_valid(m: MessageView)
    requires
        decode_message(m.encode()) == Ok::<MessageView, WireFault>(m),
    ensures
        m.valid(),
{
    match m {
        MessageView::BatchRequest(items) => {
            let docs = Seq::new(items.len(), |i: int| items[i].encode());
            let ms = decode_prefix(docs, docs.len())->Ok_0;
            lemma_prefix_items(docs, docs.len());
            assert(has_request(ms));
            let w = choose|i: int| 0 <= i < ms.len() && (#[trigger] ms[i]) is Request;
            assert(request_items(ms)->Some_0[w] == items[w]);
            assert(ms[w].request_item() == Some(items[w]));
            assert(items[w] is Request);
            assert forall|i: int| 0 <= i < items.len() implies (#[trigger] items[i]).valid() by {
                assert(request_items(ms)->Some_0[i] == items[i]);
                assert(ms[i].request_item() == Some(items[i]));
                assert(decode_single(docs[i]) == Ok::<MessageView, WireFault>(ms[i]));
                assert(docs[i] == items[i].encode());
                lemma_envelope_needs_valid(items[i].message());
            }
        },
        MessageView::BatchResponse(items) => {
            let docs = Seq::new(items.len(), |i: int| items[i].encode());
            let ms = decode_prefix(docs, docs.len())->Ok_0;
            lemma_prefix_items(docs, docs.len());
            assert forall|i: int| 0 <= i < items.len() implies (#[trigger] items[i]).valid() by {
                assert(response_items(ms)->Some_0[i] == items[i]);
                assert(ms[i].response_item() == Some(items[i]));
                assert(decode_single(docs[i]) == Ok::<MessageView, WireFault>(ms[i]));
                assert(docs[i] == items[i].encode());
                lemma_envelope_needs_valid(items[i].message());
            }
        },
        _ => {
            lemma_envelope_needs_valid(m);
        },
    }
}

/// Two objects without repeated keys that hold the same member under every
/// key: the same object up to the order of its members.
pub open spec fn same_members(a: JsonValue, b: JsonValue) -> bool {
    &&& a matches JsonValue::Object(x) && distinct_keys(x)
    &&& b matches JsonValue::Object(y) && distinct_keys(y)
    &&& forall|k: Seq<char>| a.get(k) == b.get(k)
}

/// Two envelopes that are the same up to the order of their members and of
/// the members of their `error` objects.
pub open spec fn same_envelope(a: JsonValue, b: JsonValue) -> bool {
    &&& a matches JsonValue::Object(x) && distinct_keys(x)
    &&& b matches JsonValue::Object(y) && distinct_keys(y)
    &&& forall|k: Seq<char>| k != "error"@ ==> a.get(k) == b.get(k)
    &&& match (a.get("error"@), b.get("error"@)) {
        (Some(x), Some(y)) => x == y || same_members(x, y),
        (None, None) => true,
        _ => false,
    }
}

/// Two wire documents that are the same up to the order of object members:
/// envelopes, or batches that hold such envelopes in the same order.
pub open spec fn same_wire(a: JsonValue, b: JsonValue) -> bool {
    match (a, b) {
        (JsonValue::Array(x), JsonValue::Array(y)) => {
            &&& x.len() == y.len()
            &&& forall|i: int| 0 <= i < x.len() ==> same_envelope(#[trigger] x[i], y[i])
        },
        _ => same_envelope(a, b),
    }
}

/// Every member of the object has one of the two, three or four keys given.
pub open spec fn only_keys(
    j: JsonValue,
    a: Seq<char>,
    b: Seq<char>,
    c: Seq<char>,
    d: Seq<char>,
) -> bool {
    j matches JsonValue::Object(ms) && distinct_keys(ms) && forall|i: int|
        0 <= i < ms.len() ==> {
            let k = (#[trigger] ms[i]).0;
            k == a || k == b || k == c || k == d
        }
}

/// The id member is written the way `encode` writes it.
pub open spec fn tidy_id(j: JsonValue) -> bool {
    match j.get("id"@) {
        Some(v) => IdView::decode(v) matches Some(id) && id.encode() == v,
        None => false,
    }
}

/// An error object that `encode` could have written, up to member order.
pub open spec fn tidy_error_info(e: JsonValue) -> bool {
    &&& only_keys(e, "code"@, "message"@, "data"@, "data"@)
    &&& e.get("data"@) != Some(JsonValue::Null)
    &&& e.get("code"@) matches Some(c) && as_i32(c) matches Some(code) && JsonValue::integer(
        code as i64,
    ) == c
}

/// An envelope that `encode` could have written, up to member order: it
/// holds no unknown member, no key twice, no `null` in place of an absent
/// member, and its integers as `encode` writes them.
pub open spec fn tidy_envelope(j: JsonValue) -> bool {
    match decode_single(j) {
        Ok(MessageView::Request(_)) => {
            &&& only_keys(j, "jsonrpc"@, "id"@, "method"@, "params"@)
            &&& tidy_id(j)
            &&& j.get("params"@) != Some(JsonValue::Null)
        },
        Ok(MessageView::Notification(_)) => {
            &&& only_keys(j, "jsonrpc"@, "method"@, "params"@, "params"@)
            &&& j.get("params"@) != Some(JsonValue::Null)
        },
        Ok(MessageView::Response(_)) => {
            &&& only_keys(j, "jsonrpc"@, "id"@, "result"@, "result"@)
            &&& tidy_id(j)
        },
        Ok(MessageView::Error(_)) => {
            &&& only_keys(j, "jsonrpc"@, "id"@, "error"@, "error"@)
            &&& tidy_id(j)
            &&& j.get("error"@) matches Some(e) && tidy_error_info(e)
        },
        _ => false,
    }
}

/// A wire document that decodes and that `encode` could have written, up to
/// member order.
pub open spec fn tidy_wire(j: JsonValue) -> bool {
    &&& decode_message(j) is Ok
    &&& match j {
        JsonValue::Array(items) => forall|i: int|
            0 <= i < items.len() ==> tidy_envelope(#[trigger] items[i]),
        _ => tidy_envelope(j),
    }
}

/// A key that `lookup` finds is the key of a member.
proof fn lemma_lookup_member(ms: Seq<(Seq<char>, JsonValue)>, k: Seq<char>)
    ensures
        lookup(ms, k) is Some ==> exists|i: int| 0 <= i < ms.len() && (#[trigger] ms[i]).0 == k,
{
    lemma_find_key(ms, k, 0);
    if lookup(ms, k) is Some {
        let i = find_key(ms, k, 0)->Some_0;
        assert(ms[i].0 == k);
    }
}

/// Writing an error object that was read from a tidy one gives it back up to
/// member order.
proof fn lemma_error_info_rewrite(e: JsonValue)
    requires
        tidy_error_info(e),
        ErrorInfoView::decode(e) is Some,
    ensures
        same_members(ErrorInfoView::decode(e)->Some_0.encode(), e),
{
    lemma_envelope_keys();
    reveal_with_fuel(find_key, 5);
    let out = ErrorInfoView::decode(e)->Some_0.encode();
    let ms = e->Object_0;
    assert forall|k: Seq<char>| out.get(k) == e.get(k) by {
        lemma_lookup_member(ms, k);
    }
}

/// Writing an envelope that was read from a tidy one gives it back up to
/// member order.
pub proof fn lemma_envelope_rewrite(j: JsonValue)
    requires
        tidy_envelope(j),
    ensures
        decode_single(j) matches Ok(m) && same_envelope(m.encode(), j),
{
    lemma_envelope_keys();
    reveal_with_fuel(find_key, 5);
    let m = decode_single(j)->Ok_0;
    let out = m.encode();
    let ms = j->Object_0;
    assert forall|k: Seq<char>| k != "error"@ implies out.get(k) == j.get(k) by {
        lemma_lookup_member(ms, k);
    }
    lemma_lookup_member(ms, "error"@);
    if m is Error {
        lemma_error_info_rewrite(j.get("error"@)->Some_0);
    }
}

/// What `encode` writes of a valid envelope is tidy.
proof fn lemma_encoded_envelope_is_tidy(m: MessageView)
    requires
        !(m is BatchRequest),
        !(m is BatchResponse),
        m.valid(),
    ensures
        tidy_envelope(m.encode()),
{
    lemma_envelope_keys();
    reveal_with_fuel(find_key, 5);
    match m {
        MessageView::Request(r) => {
            lemma_request_round_trip(r);
            lemma_id_round_trip(r.id);
        },
        MessageView::Notification(n) => {
            lemma_notification_round_trip(n);
        },
        MessageView::Response(r) => {
            lemma_response_round_trip(r);
            lemma_id_round_trip(r.id);
        },
        MessageView::Error(e) => {
            lemma_error_round_trip(e);
            lemma_error_info_round_trip(e.error);
            lemma_id_round_trip(e.id);
        },
        _ => {},
    }
}

/// What `encode` writes of a valid message is tidy: the tidy documents are,
/// up to the order of object members, the wire forms of the valid messages.
pub proof fn lemma_encoded_is_tidy(m: MessageView)
    requires
        m.valid(),
    ensures
        tidy_wire(m.encode()),
{
    lemma_decode_encode(m);
    match m {
        MessageView::BatchRequest(items) => {
            let docs = m.encode()->Array_0;
            assert forall|i: int| 0 <= i < docs.len() implies tidy_envelope(
                #[trigger] docs[i],
            ) by {
                assert(items[i].valid());
                assert(docs[i] == items[i].message().encode());
                lemma_encoded_envelope_is_tidy(items[i].message());
            }
        },
        MessageView::BatchResponse(items) => {
            let docs = m.encode()->Array_0;
            assert forall|i: int| 0 <= i < docs.len() implies tidy_envelope(
                #[trigger] docs[i],
            ) by {
                assert(items[i].valid());
                assert(docs[i] == items[i].message().encode());
                lemma_encoded_envelope_is_tidy(items[i].message());
            }
        },
        _ => {
            lemma_encoded_envelope_is_tidy(m);
        },
    }
}

/// The other half of the codec round trip: for every tidy wire document,
/// encoding what was decoded gives the document back, up to the order of
/// object members.
pub proof fn lemma_encode_decode(j: JsonValue)
    requires
        tidy_wire(j),
    ensures
        decode_message(j) matches Ok(m) && same_wire(m.encode(), j),
{
    match j {
        JsonValue::Array(items) => {
            let ms = decode_prefix(items, items.len())->Ok_0;
            lemma_prefix_items(items, items.len());
            let m = decode_message(j)->Ok_0;
            let out = m.encode()->Array_0;
            assert forall|i: int| 0 <= i < out.len() implies same_envelope(
                #[trigger] out[i],
                items[i],
            ) by {
                assert(tidy_envelope(items[i]));
                lemma_envelope_rewrite(items[i]);
                assert(decode_single(items[i]) == Ok::<MessageView, WireFault>(ms[i]));
                match m {
                    MessageView::BatchRequest(v) => {
                        assert(ms[i].request_item() == Some(v[i]));
                    },
                    MessageView::BatchResponse(v) => {
                        assert(ms[i].response_item() == Some(v[i]));
                    },
                    _ => {},
                }
            }
        },
        _ => {
            lemma_envelope_rewrite(j);
        },
    }
}


} // verus!
