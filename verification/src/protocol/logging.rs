//! Protocol types and definitions for MCP logging: log levels and message
//! notifications.

use crate::error::Error;
use crate::json::{
    lemma_lookup_empty, lemma_lookup_push, lemma_lookup_push_opt, members_view, push_opt, put_str,
    Json, JsonValue,
};
use crate::protocol::wire::{
    encode_opt, lemma_member, lemma_opt_member, member, opt_member, optional, put_opt_value,
    put_value, required, view_opt, Wire,
};
use crate::protocol::messages::{Notification, Request};
use crate::json::str_eq;
use vstd::prelude::*;

verus! {

/// The severity of a log message. These map to syslog message severities, as specified in RFC-5424.
#[derive(Debug, Clone, Copy, PartialEq, Eq, Hash, Structural)]
pub enum LoggingLevel {
    /// Debug-level message.
    Debug,
    /// Informational message.
    Info,
    /// Normal but significant condition.
    Notice,
    /// Warning conditions.
    Warning,
    /// Error conditions.
    Error,
    /// Critical conditions.
    Critical,
    /// Action must be taken immediately.
    Alert,
    /// System is unusable.
    Emergency,
}

impl View for LoggingLevel {
    type V = LoggingLevel;

    open spec fn view(&self) -> LoggingLevel {
        *self
    }
}

impl LoggingLevel {
    /// The wire name of the logging level.
    pub open spec fn name(self) -> Seq<char> {
        match self {
            LoggingLevel::Debug => "debug"@,
            LoggingLevel::Info => "info"@,
            LoggingLevel::Notice => "notice"@,
            LoggingLevel::Warning => "warning"@,
            LoggingLevel::Error => "error"@,
            LoggingLevel::Critical => "critical"@,
            LoggingLevel::Alert => "alert"@,
            LoggingLevel::Emergency => "emergency"@,
        }
    }

    /// The logging level with the given wire name.
    pub open spec fn named(name: Seq<char>) -> Option<LoggingLevel> {
        if name == "debug"@ {
            Some(LoggingLevel::Debug)
        } else if name == "info"@ {
            Some(LoggingLevel::Info)
        } else if name == "notice"@ {
            Some(LoggingLevel::Notice)
        } else if name == "warning"@ {
            Some(LoggingLevel::Warning)
        } else if name == "error"@ {
            Some(LoggingLevel::Error)
        } else if name == "critical"@ {
            Some(LoggingLevel::Critical)
        } else if name == "alert"@ {
            Some(LoggingLevel::Alert)
        } else if name == "emergency"@ {
            Some(LoggingLevel::Emergency)
        } else {
            None
        }
    }

    /// The wire name of the logging level.
    pub fn as_str(&self) -> (s: &'static str)
        ensures
            s@ == self.name(),
    {
        match self {
            LoggingLevel::Debug => "debug",
            LoggingLevel::Info => "info",
            LoggingLevel::Notice => "notice",
            LoggingLevel::Warning => "warning",
            LoggingLevel::Error => "error",
            LoggingLevel::Critical => "critical",
            LoggingLevel::Alert => "alert",
            LoggingLevel::Emergency => "emergency",
        }
    }

    /// The logging level with the given wire name.
    pub fn parse(name: &str) -> (r: Option<LoggingLevel>)
        ensures
            r == LoggingLevel::named(name@),
    {
        if str_eq(name, "debug") {
            Some(LoggingLevel::Debug)
        } else if str_eq(name, "info") {
            Some(LoggingLevel::Info)
        } else if str_eq(name, "notice") {
            Some(LoggingLevel::Notice)
        } else if str_eq(name, "warning") {
            Some(LoggingLevel::Warning)
        } else if str_eq(name, "error") {
            Some(LoggingLevel::Error)
        } else if str_eq(name, "critical") {
            Some(LoggingLevel::Critical)
        } else if str_eq(name, "alert") {
            Some(LoggingLevel::Alert)
        } else if str_eq(name, "emergency") {
            Some(LoggingLevel::Emergency)
        } else {
            None
        }
    }
}

impl Wire for LoggingLevel {
    open spec fn encode(v: LoggingLevel) -> JsonValue {
        JsonValue::Str(v.name())
    }

    open spec fn decode(j: JsonValue) -> Option<LoggingLevel> {
        match j {
            JsonValue::Str(s) => LoggingLevel::named(s),
            _ => None,
        }
    }

    open spec fn lossless(v: LoggingLevel) -> bool {
        true
    }

    proof fn lemma_round_trip(v: LoggingLevel) {
        reveal_strlit("debug");
        reveal_strlit("info");
        reveal_strlit("notice");
        reveal_strlit("warning");
        reveal_strlit("error");
        reveal_strlit("critical");
        reveal_strlit("alert");
        reveal_strlit("emergency");
        assert("debug"@.len() == 5);
        assert("info"@.len() == 4);
        assert("notice"@.len() == 6);
        assert("warning"@.len() == 7);
        assert("error"@.len() == 5);
        assert("critical"@.len() == 8);
        assert("alert"@.len() == 5);
        assert("emergency"@.len() == 9);
        assert("debug"@[0] != "error"@[0]);
        assert("debug"@[0] != "alert"@[0]);
        assert("error"@[0] != "alert"@[0]);
    }

    fn to_json(&self) -> (j: Json) {
        Json::string(self.as_str())
    }

    fn from_json(j: &Json) -> (r: Result<LoggingLevel, Error>) {
        match j.as_str() {
            Some(s) => match LoggingLevel::parse(s) {
                Some(v) => Ok(v),
                None => Err(Error::parse("unknown logging level")),
            },
            None => Err(Error::parse("expected the name of a logging level")),
        }
    }
}

impl LoggingLevel {
    /// The syslog severity number of the level: 0 for emergency, the most
    /// severe, up to 7 for debug.
    pub open spec fn severity(self) -> u8 {
        match self {
            LoggingLevel::Debug => 7,
            LoggingLevel::Info => 6,
            LoggingLevel::Notice => 5,
            LoggingLevel::Warning => 4,
            LoggingLevel::Error => 3,
            LoggingLevel::Critical => 2,
            LoggingLevel::Alert => 1,
            LoggingLevel::Emergency => 0,
        }
    }

    /// Get the numeric value of the log level (lower = more severe).
    pub fn as_severity(&self) -> (n: u8)
        ensures
            n == self.severity(),
    {
        match self {
            LoggingLevel::Debug => 7,
            LoggingLevel::Info => 6,
            LoggingLevel::Notice => 5,
            LoggingLevel::Warning => 4,
            LoggingLevel::Error => 3,
            LoggingLevel::Critical => 2,
            LoggingLevel::Alert => 1,
            LoggingLevel::Emergency => 0,
        }
    }

    /// Check if this log level is at least as severe as another level.
    pub fn is_at_least_as_severe_as(&self, other: &LoggingLevel) -> (r: bool)
        ensures
            r == (self.severity() <= other.severity()),
    {
        self.as_severity() <= other.as_severity()
    }
}

/// Parameters for the set level request.
#[derive(Debug, Clone, PartialEq)]
pub struct SetLevelParams {
    /// The level of logging that the client wants to receive from the server.
    pub level: LoggingLevel,
}

/// The mathematical value of a [`SetLevelParams`].
pub struct SetLevelParamsView {
    pub level: LoggingLevel,
}

impl View for SetLevelParams {
    type V = SetLevelParamsView;

    open spec fn view(&self) -> SetLevelParamsView {
        SetLevelParamsView {
            level: self.level@,
        }
    }
}

impl Wire for SetLevelParams {
    open spec fn encode(v: SetLevelParamsView) -> JsonValue {
        let m = Seq::empty();
        let m = m.push(("level"@, LoggingLevel::encode(v.level)));
        JsonValue::Object(m)
    }

    open spec fn decode(j: JsonValue) -> Option<SetLevelParamsView> {
        match member::<LoggingLevel>(j, "level"@) {
            Some(level) => Some(SetLevelParamsView { level }),
            None => None,
        }
    }

    open spec fn lossless(v: SetLevelParamsView) -> bool {
        true
    }

    proof fn lemma_round_trip(v: SetLevelParamsView) {
        reveal_strlit("level");
        let m0 = Seq::<(Seq<char>, JsonValue)>::empty();
        let m1 = m0.push(("level"@, LoggingLevel::encode(v.level)));
        lemma_lookup_empty("level"@);
        lemma_lookup_push(m0, "level"@, LoggingLevel::encode(v.level), "level"@);
        let j = JsonValue::Object(m1);
        lemma_member::<LoggingLevel>(j, "level"@, v.level);
    }

    fn to_json(&self) -> (j: Json) {
        let mut members: Vec<(String, Json)> = Vec::new();
        assert(members_view(members@) =~= Seq::empty());
        put_value(&mut members, "level", &self.level);
        Json::object(members)
    }

    fn from_json(j: &Json) -> (r: Result<SetLevelParams, Error>) {
        let level = required::<LoggingLevel>(j, "level")?;
        Ok(SetLevelParams { level })
    }
}

/// A request from the client to the server, to enable or adjust logging.
#[derive(Debug, Clone, PartialEq)]
pub struct SetLevelRequest {
    /// The method name, always "logging/setLevel".
    pub method: String,
    /// The request parameters.
    pub params: SetLevelParams,
}

/// The mathematical value of a [`SetLevelRequest`].
pub struct SetLevelRequestView {
    pub method: Seq<char>,
    pub params: SetLevelParamsView,
}

impl View for SetLevelRequest {
    type V = SetLevelRequestView;

    open spec fn view(&self) -> SetLevelRequestView {
        SetLevelRequestView {
            method: self.method@,
            params: self.params@,
        }
    }
}

impl SetLevelRequest {
    /// Create a new set level request.
    pub fn new(level: LoggingLevel) -> (r: SetLevelRequest)
        ensures
            r@ == (SetLevelRequestView {
                method: "logging/setLevel"@,
                params: SetLevelParamsView { level },
            }),
    {
        SetLevelRequest {
            method: "logging/setLevel".to_owned(),
            params: SetLevelParams { level },
        }
    }
}

impl Wire for SetLevelRequest {
    open spec fn encode(v: SetLevelRequestView) -> JsonValue {
        let m = Seq::empty();
        let m = m.push(("method"@, JsonValue::Str(v.method)));
        let m = m.push(("params"@, SetLevelParams::encode(v.params)));
        JsonValue::Object(m)
    }

    open spec fn decode(j: JsonValue) -> Option<SetLevelRequestView> {
        match (
            member::<String>(j, "method"@),
            member::<SetLevelParams>(j, "params"@),
        ) {
            (Some(method), Some(params)) => Some(
                SetLevelRequestView { method, params },
            ),
            _ => None,
        }
    }

    open spec fn lossless(v: SetLevelRequestView) -> bool {
        SetLevelParams::lossless(v.params)
    }

    proof fn lemma_round_trip(v: SetLevelRequestView) {
        reveal_strlit("method");
        reveal_strlit("params");
        assert("method"@.len() == 6);
        assert("params"@.len() == 6);
        assert("method"@[0] != "params"@[0]);
        let m0 = Seq::<(Seq<char>, JsonValue)>::empty();
        let m1 = m0.push(("method"@, JsonValue::Str(v.method)));
        let m2 = m1.push(("params"@, SetLevelParams::encode(v.params)));
        lemma_lookup_empty("method"@);
        lemma_lookup_push(m0, "method"@, JsonValue::Str(v.method), "method"@);
        lemma_lookup_push(m1, "params"@, SetLevelParams::encode(v.params), "method"@);
        lemma_lookup_empty("params"@);
        lemma_lookup_push(m0, "method"@, JsonValue::Str(v.method), "params"@);
        lemma_lookup_push(m1, "params"@, SetLevelParams::encode(v.params), "params"@);
        let j = JsonValue::Object(m2);
        lemma_member::<String>(j, "method"@, v.method);
        lemma_member::<SetLevelParams>(j, "params"@, v.params);
    }

    fn to_json(&self) -> (j: Json) {
        let mut members: Vec<(String, Json)> = Vec::new();
        assert(members_view(members@) =~= Seq::empty());
        put_str(&mut members, "method", self.method.as_str());
        put_value(&mut members, "params", &self.params);
        Json::object(members)
    }

    fn from_json(j: &Json) -> (r: Result<SetLevelRequest, Error>) {
        let method = required::<String>(j, "method")?;
        let params = required::<SetLevelParams>(j, "params")?;
        Ok(SetLevelRequest { method, params })
    }
}

impl Request for SetLevelRequest {
    open spec fn method_name(&self) -> Seq<char> {
        self.method@
    }

    open spec fn params_value(&self) -> Option<JsonValue> {
        Some(SetLevelParams::encode(self.params@))
    }

    fn method(&self) -> (m: &str) {
        self.method.as_str()
    }

    fn params(&self) -> (p: Option<Json>) {
        Some(self.params.to_json())
    }
}

/// Parameters for the logging message notification.
#[derive(Debug, Clone, PartialEq)]
pub struct LoggingMessageParams {
    /// The severity of this log message.
    pub level: LoggingLevel,
    /// An optional name of the logger issuing this message.
    pub logger: Option<String>,
    /// The data to be logged, such as a string message or an object.
    pub data: Json,
}

/// The mathematical value of a [`LoggingMessageParams`].
pub struct LoggingMessageParamsView {
    pub level: LoggingLevel,
    pub logger: Option<Seq<char>>,
    pub data: JsonValue,
}

impl View for LoggingMessageParams {
    type V = LoggingMessageParamsView;

    open spec fn view(&self) -> LoggingMessageParamsView {
        LoggingMessageParamsView {
            level: self.level@,
            logger: view_opt(self.logger),
            data: self.data@,
        }
    }
}

impl Wire for LoggingMessageParams {
    open spec fn encode(v: LoggingMessageParamsView) -> JsonValue {
        let m = Seq::empty();
        let m = m.push(("level"@, LoggingLevel::encode(v.level)));
        let m = push_opt(m, "logger"@, encode_opt::<String>(v.logger));
        let m = m.push(("data"@, v.data));
        JsonValue::Object(m)
    }

    open spec fn decode(j: JsonValue) -> Option<LoggingMessageParamsView> {
        match (
            member::<LoggingLevel>(j, "level"@),
            opt_member::<String>(j, "logger"@),
            member::<Json>(j, "data"@),
        ) {
            (Some(level), Some(logger), Some(data)) => Some(
                LoggingMessageParamsView { level, logger, data },
            ),
            _ => None,
        }
    }

    open spec fn lossless(v: LoggingMessageParamsView) -> bool {
        Json::lossless(v.data)
    }

    proof fn lemma_round_trip(v: LoggingMessageParamsView) {
        reveal_strlit("level");
        reveal_strlit("logger");
        reveal_strlit("data");
        assert("level"@.len() == 5);
        assert("logger"@.len() == 6);
        assert("data"@.len() == 4);
        let m0 = Seq::<(Seq<char>, JsonValue)>::empty();
        let m1 = m0.push(("level"@, LoggingLevel::encode(v.level)));
        let m2 = push_opt(m1, "logger"@, encode_opt::<String>(v.logger));
        let m3 = m2.push(("data"@, v.data));
        lemma_lookup_empty("level"@);
        lemma_lookup_push(m0, "level"@, LoggingLevel::encode(v.level), "level"@);
        lemma_lookup_push_opt(m1, "logger"@, encode_opt::<String>(v.logger), "level"@);
        lemma_lookup_push(m2, "data"@, v.data, "level"@);
        lemma_lookup_empty("logger"@);
        lemma_lookup_push(m0, "level"@, LoggingLevel::encode(v.level), "logger"@);
        lemma_lookup_push_opt(m1, "logger"@, encode_opt::<String>(v.logger), "logger"@);
        lemma_lookup_push(m2, "data"@, v.data, "logger"@);
        lemma_lookup_empty("data"@);
        lemma_lookup_push(m0, "level"@, LoggingLevel::encode(v.level), "data"@);
        lemma_lookup_push_opt(m1, "logger"@, encode_opt::<String>(v.logger), "data"@);
        lemma_lookup_push(m2, "data"@, v.data, "data"@);
        let j = JsonValue::Object(m3);
        lemma_member::<LoggingLevel>(j, "level"@, v.level);
        lemma_opt_member::<String>(j, "logger"@, v.logger);
        lemma_member::<Json>(j, "data"@, v.data);
    }

    fn to_json(&self) -> (j: Json) {
        let mut members: Vec<(String, Json)> = Vec::new();
        assert(members_view(members@) =~= Seq::empty());
        put_value(&mut members, "level", &self.level);
        put_opt_value(&mut members, "logger", &self.logger);
        put_value(&mut members, "data", &self.data);
        Json::object(members)
    }

    fn from_json(j: &Json) -> (r: Result<LoggingMessageParams, Error>) {
        let level = required::<LoggingLevel>(j, "level")?;
        let logger = optional::<String>(j, "logger")?;
        let data = required::<Json>(j, "data")?;
        Ok(LoggingMessageParams { level, logger, data })
    }
}

/// Notification of a log message passed from server to client.
#[derive(Debug, Clone, PartialEq)]
pub struct LoggingMessageNotification {
    /// The method name, always "notifications/message".
    pub method: String,
    /// The notification parameters.
    pub params: LoggingMessageParams,
}

/// The mathematical value of a [`LoggingMessageNotification`].
pub struct LoggingMessageNotificationView {
    pub method: Seq<char>,
    pub params: LoggingMessageParamsView,
}

impl View for LoggingMessageNotification {
    type V = LoggingMessageNotificationView;

    open spec fn view(&self) -> LoggingMessageNotificationView {
        LoggingMessageNotificationView {
            method: self.method@,
            params: self.params@,
        }
    }
}

impl LoggingMessageNotification {
    /// Create a new logging message notification with a string message.
    pub fn new_text(level: LoggingLevel, message: &str) -> (r: LoggingMessageNotification)
        ensures
            r@ == (LoggingMessageNotificationView {
                method: "notifications/message"@,
                params: LoggingMessageParamsView {
                    level,
                    logger: None,
                    data: JsonValue::Str(message@),
                },
            }),
    {
        LoggingMessageNotification {
            method: "notifications/message".to_owned(),
            params: LoggingMessageParams { level, logger: None, data: Json::string(message) },
        }
    }

    /// Create a new logging message notification with a logger name and string
    /// message.
    pub fn new_text_with_logger(level: LoggingLevel, logger: &str, message: &str) -> (r: LoggingMessageNotification)
        ensures
            r@ == (LoggingMessageNotificationView {
                method: "notifications/message"@,
                params: LoggingMessageParamsView {
                    level,
                    logger: Some(logger@),
                    data: JsonValue::Str(message@),
                },
            }),
    {
        LoggingMessageNotification {
            method: "notifications/message".to_owned(),
            params: LoggingMessageParams {
                level,
                logger: Some(logger.to_owned()),
                data: Json::string(message),
            },
        }
    }

    /// Create a new logging message notification with structured data.
    pub fn new_structured(level: LoggingLevel, data: Json) -> (r: LoggingMessageNotification)
        ensures
            r@ == (LoggingMessageNotificationView {
                method: "notifications/message"@,
                params: LoggingMessageParamsView { level, logger: None, data: data@ },
            }),
    {
        LoggingMessageNotification {
            method: "notifications/message".to_owned(),
            params: LoggingMessageParams { level, logger: None, data },
        }
    }

    /// Create a new logging message notification with a logger name and
    /// structured data.
    pub fn new_structured_with_logger(level: LoggingLevel, logger: &str, data: Json) -> (r: LoggingMessageNotification)
        ensures
            r@ == (LoggingMessageNotificationView {
                method: "notifications/message"@,
                params: LoggingMessageParamsView { level, logger: Some(logger@), data: data@ },
            }),
    {
        LoggingMessageNotification {
            method: "notifications/message".to_owned(),
            params: LoggingMessageParams { level, logger: Some(logger.to_owned()), data },
        }
    }
}

impl Wire for LoggingMessageNotification {
    open spec fn encode(v: LoggingMessageNotificationView) -> JsonValue {
        let m = Seq::empty();
        let m = m.push(("method"@, JsonValue::Str(v.method)));
        let m = m.push(("params"@, LoggingMessageParams::encode(v.params)));
        JsonValue::Object(m)
    }

    open spec fn decode(j: JsonValue) -> Option<LoggingMessageNotificationView> {
        match (
            member::<String>(j, "method"@),
            member::<LoggingMessageParams>(j, "params"@),
        ) {
            (Some(method), Some(params)) => Some(
                LoggingMessageNotificationView { method, params },
            ),
            _ => None,
        }
    }

    open spec fn lossless(v: LoggingMessageNotificationView) -> bool {
        LoggingMessageParams::lossless(v.params)
    }

    proof fn lemma_round_trip(v: LoggingMessageNotificationView) {
        reveal_strlit("method");
        reveal_strlit("params");
        assert("method"@.len() == 6);
        assert("params"@.len() == 6);
        assert("method"@[0] != "params"@[0]);
        let m0 = Seq::<(Seq<char>, JsonValue)>::empty();
        let m1 = m0.push(("method"@, JsonValue::Str(v.method)));
        let m2 = m1.push(("params"@, LoggingMessageParams::encode(v.params)));
        lemma_lookup_empty("method"@);
        lemma_lookup_push(m0, "method"@, JsonValue::Str(v.method), "method"@);
        lemma_lookup_push(m1, "params"@, LoggingMessageParams::encode(v.params), "method"@);
        lemma_lookup_empty("params"@);
        lemma_lookup_push(m0, "method"@, JsonValue::Str(v.method), "params"@);
        lemma_lookup_push(m1, "params"@, LoggingMessageParams::encode(v.params), "params"@);
        let j = JsonValue::Object(m2);
        lemma_member::<String>(j, "method"@, v.method);
        lemma_member::<LoggingMessageParams>(j, "params"@, v.params);
    }

    fn to_json(&self) -> (j: Json) {
        let mut members: Vec<(String, Json)> = Vec::new();
        assert(members_view(members@) =~= Seq::empty());
        put_str(&mut members, "method", self.method.as_str());
        put_value(&mut members, "params", &self.params);
        Json::object(members)
    }

    fn from_json(j: &Json) -> (r: Result<LoggingMessageNotification, Error>) {
        let method = required::<String>(j, "method")?;
        let params = required::<LoggingMessageParams>(j, "params")?;
        Ok(LoggingMessageNotification { method, params })
    }
}

impl Notification for LoggingMessageNotification {
    open spec fn method_name(&self) -> Seq<char> {
        self.method@
    }

    open spec fn params_value(&self) -> Option<JsonValue> {
        Some(LoggingMessageParams::encode(self.params@))
    }

    fn method(&self) -> (m: &str) {
        self.method.as_str()
    }

    fn params(&self) -> (p: Option<Json>) {
        Some(self.params.to_json())
    }
}

/// The value of a log notification that carries a plain text message.
pub open spec fn text_message(
    level: LoggingLevel,
    message: Seq<char>,
) -> LoggingMessageNotificationView {
    LoggingMessageNotificationView {
        method: "notifications/message"@,
        params: LoggingMessageParamsView { level, logger: None, data: JsonValue::Str(message) },
    }
}

/// Shorthand for creating debug level log messages.
pub fn debug(message: &str) -> (r: LoggingMessageNotification)
    ensures
        r@ == text_message(LoggingLevel::Debug, message@),
{
    LoggingMessageNotification::new_text(LoggingLevel::Debug, message)
}

/// Shorthand for creating info level log messages.
pub fn info(message: &str) -> (r: LoggingMessageNotification)
    ensures
        r@ == text_message(LoggingLevel::Info, message@),
{
    LoggingMessageNotification::new_text(LoggingLevel::Info, message)
}

/// Shorthand for creating notice level log messages.
pub fn notice(message: &str) -> (r: LoggingMessageNotification)
    ensures
        r@ == text_message(LoggingLevel::Notice, message@),
{
    LoggingMessageNotification::new_text(LoggingLevel::Notice, message)
}

/// Shorthand for creating warning level log messages.
pub fn warning(message: &str) -> (r: LoggingMessageNotification)
    ensures
        r@ == text_message(LoggingLevel::Warning, message@),
{
    LoggingMessageNotification::new_text(LoggingLevel::Warning, message)
}

/// Shorthand for creating error level log messages.
pub fn error(message: &str) -> (r: LoggingMessageNotification)
    ensures
        r@ == text_message(LoggingLevel::Error, message@),
{
    LoggingMessageNotification::new_text(LoggingLevel::Error, message)
}

/// Shorthand for creating critical level log messages.
pub fn critical(message: &str) -> (r: LoggingMessageNotification)
    ensures
        r@ == text_message(LoggingLevel::Critical, message@),
{
    LoggingMessageNotification::new_text(LoggingLevel::Critical, message)
}

/// Shorthand for creating alert level log messages.
pub fn alert(message: &str) -> (r: LoggingMessageNotification)
    ensures
        r@ == text_message(LoggingLevel::Alert, message@),
{
    LoggingMessageNotification::new_text(LoggingLevel::Alert, message)
}

/// Shorthand for creating emergency level log messages.
pub fn emergency(message: &str) -> (r: LoggingMessageNotification)
    ensures
        r@ == text_message(LoggingLevel::Emergency, message@),
{
    LoggingMessageNotification::new_text(LoggingLevel::Emergency, message)
}

} // verus!
