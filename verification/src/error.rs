//! The error type shared by every part of the library.

use crate::json::Json;
use crate::utils::text::{signed_decimal, signed_decimal_string};
use vstd::prelude::*;
use vstd::string::StringExecFns;

verus! {

/// Errors that can occur while speaking the protocol.
#[derive(Debug, Clone, PartialEq)]
pub enum Error {
    /// A programming error: an id collision, a delivery slot closed early.
    InternalError(String),
    /// The underlying channel failed.
    TransportError(String),
    /// A well-formed message that is not valid at this point of the session.
    ProtocolError(String),
    /// Malformed JSON or a field of the wrong type.
    ParseError(String),
    /// Authentication failed.
    AuthError(String),
    /// A builder was not given what it needs.
    ConfigError(String),
    /// The peer answered with a JSON-RPC error: code, message, data.
    ServerError(i32, String, Option<Json>),
    /// The local deadline of a request passed.
    Timeout(String),
    /// The peer did not advertise the capability.
    UnsupportedFeature(String),
    /// A request was made before the handshake completed.
    NotInitialized,
    /// The session was closed.
    ConnectionClosed(String),
    /// JSON could not be written or read.
    JsonError(String),
    /// An I/O operation failed.
    IoError(String),
    /// A URL could not be parsed or has the wrong scheme.
    UrlError(String),
    /// The request was cancelled before its response arrived.
    Cancelled(String),
}

/// The two ways in which an incoming document can fail to be a message.
pub enum WireFault {
    /// A field has the wrong type.
    Parse,
    /// The document is not a valid envelope.
    Protocol,
}

impl Error {
    /// Whether this error reports the given fault.
    pub open spec fn reports(self, fault: WireFault) -> bool {
        match fault {
            WireFault::Parse => self is ParseError,
            WireFault::Protocol => self is ProtocolError,
        }
    }

    /// The message that the error carries.
    pub open spec fn detail(self) -> Seq<char> {
        match self {
            Error::InternalError(m) => m@,
            Error::TransportError(m) => m@,
            Error::ProtocolError(m) => m@,
            Error::ParseError(m) => m@,
            Error::AuthError(m) => m@,
            Error::ConfigError(m) => m@,
            Error::ServerError(_, m, _) => m@,
            Error::Timeout(m) => m@,
            Error::UnsupportedFeature(m) => m@,
            Error::NotInitialized => "Not initialized"@,
            Error::ConnectionClosed(m) => m@,
            Error::JsonError(m) => m@,
            Error::IoError(m) => m@,
            Error::UrlError(m) => m@,
            Error::Cancelled(m) => m@,
        }
    }

    /// The message that the error carries.
    pub fn message(&self) -> (s: String)
        ensures
            s@ == self.detail(),
    {
        match self {
            Error::InternalError(m) => m.clone(),
            Error::TransportError(m) => m.clone(),
            Error::ProtocolError(m) => m.clone(),
            Error::ParseError(m) => m.clone(),
            Error::AuthError(m) => m.clone(),
            Error::ConfigError(m) => m.clone(),
            Error::ServerError(_, m, _) => m.clone(),
            Error::Timeout(m) => m.clone(),
            Error::UnsupportedFeature(m) => m.clone(),
            Error::NotInitialized => "Not initialized".to_owned(),
            Error::ConnectionClosed(m) => m.clone(),
            Error::JsonError(m) => m.clone(),
            Error::IoError(m) => m.clone(),
            Error::UrlError(m) => m.clone(),
            Error::Cancelled(m) => m.clone(),
        }
    }

    /// What stands before the message when the error is written out.
    pub open spec fn label(self) -> Seq<char> {
        match self {
            Error::InternalError(_) => "Internal error: "@,
            Error::TransportError(_) => "Transport error: "@,
            Error::ProtocolError(_) => "Protocol error: "@,
            Error::ParseError(_) => "Parse error: "@,
            Error::AuthError(_) => "Authentication error: "@,
            Error::ConfigError(_) => "Configuration error: "@,
            Error::ServerError(code, _, _) => "Server error "@ + signed_decimal(code as int)
                + ": "@,
            Error::Timeout(_) => "Timeout: "@,
            Error::UnsupportedFeature(_) => "Unsupported feature: "@,
            Error::NotInitialized => Seq::empty(),
            Error::ConnectionClosed(_) => "Connection closed: "@,
            Error::JsonError(_) => "JSON error: "@,
            Error::IoError(_) => "IO error: "@,
            Error::UrlError(_) => "Invalid URL: "@,
            Error::Cancelled(_) => "Cancelled: "@,
        }
    }

    /// The error written out: what kind of error it is, then its message.
    pub open spec fn description(self) -> Seq<char> {
        self.label() + self.detail()
    }

    /// Writes the error out for a reader.
    pub fn describe(&self) -> (s: String)
        ensures
            s@ == self.description(),
    {
        let mut s = match self {
            Error::InternalError(_) => "Internal error: ".to_owned(),
            Error::TransportError(_) => "Transport error: ".to_owned(),
            Error::ProtocolError(_) => "Protocol error: ".to_owned(),
            Error::ParseError(_) => "Parse error: ".to_owned(),
            Error::AuthError(_) => "Authentication error: ".to_owned(),
            Error::ConfigError(_) => "Configuration error: ".to_owned(),
            Error::ServerError(code, _, _) => {
                let mut label = "Server error ".to_owned();
                label.append(signed_decimal_string(*code as i64).as_str());
                label.append(": ");
                label
            },
            Error::Timeout(_) => "Timeout: ".to_owned(),
            Error::UnsupportedFeature(_) => "Unsupported feature: ".to_owned(),
            Error::NotInitialized => String::new(),
            Error::ConnectionClosed(_) => "Connection closed: ".to_owned(),
            Error::JsonError(_) => "JSON error: ".to_owned(),
            Error::IoError(_) => "IO error: ".to_owned(),
            Error::UrlError(_) => "Invalid URL: ".to_owned(),
            Error::Cancelled(_) => "Cancelled: ".to_owned(),
        };
        s.append(self.message().as_str());
        s
    }

    /// A parse error with the given message.
    pub fn parse(message: &str) -> (e: Error)
        ensures
            e matches Error::ParseError(m) && m@ == message@,
    {
        Error::ParseError(message.to_owned())
    }

    /// A protocol error with the given message.
    pub fn protocol(message: &str) -> (e: Error)
        ensures
            e matches Error::ProtocolError(m) && m@ == message@,
    {
        Error::ProtocolError(message.to_owned())
    }

    /// An internal error with the given message.
    pub fn internal(message: &str) -> (e: Error)
        ensures
            e matches Error::InternalError(m) && m@ == message@,
    {
        Error::InternalError(message.to_owned())
    }

    /// An unsupported-feature error naming the feature.
    pub fn unsupported(feature: &str) -> (e: Error)
        ensures
            e matches Error::UnsupportedFeature(m) && m@ == feature@,
    {
        Error::UnsupportedFeature(feature.to_owned())
    }
}

} // verus!
