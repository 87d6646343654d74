//! The endpoints of the transports.
//!
//! A transport carries one JSON-RPC envelope per frame and does not
//! correlate requests with responses. What is kept here is the part of a
//! transport that decides: whether a URL names an endpoint that the
//! transport can reach.

use crate::error::Error;
use crate::json::str_eq;
use crate::utils::uri::{read_url, url_of};
use vstd::prelude::*;
use vstd::string::StringExecFns;

verus! {

/// The kinds of frame that a message transport receives.
#[derive(Debug, Clone, Copy, PartialEq, Eq, Structural)]
pub enum FrameKind {
    /// A text frame: it holds one envelope.
    Text,
    /// A binary frame.
    Binary,
    /// A ping of the peer.
    Ping,
    /// A pong of the peer.
    Pong,
    /// The peer closes the connection.
    Close,
    /// A raw frame.
    Raw,
}

/// What a transport does with a frame.
#[derive(Debug, Clone, Copy, PartialEq, Eq, Structural)]
pub enum FrameAction {
    /// Read the envelope that the frame holds and hand it on.
    Deliver,
    /// Pass the frame over.
    Ignore,
    /// Stop receiving: the stream has ended.
    Stop,
}

/// What a transport does with a frame of the given kind: a text frame holds
/// an envelope, a close ends the stream, and every other frame is passed
/// over.
pub open spec fn action_for(kind: FrameKind) -> FrameAction {
    match kind {
        FrameKind::Text => FrameAction::Deliver,
        FrameKind::Close => FrameAction::Stop,
        _ => FrameAction::Ignore,
    }
}

/// Decides what to do with a frame.
pub fn on_frame(kind: FrameKind) -> (action: FrameAction)
    ensures
        action == action_for(kind),
{
    match kind {
        FrameKind::Text => FrameAction::Deliver,
        FrameKind::Close => FrameAction::Stop,
        FrameKind::Binary => FrameAction::Ignore,
        FrameKind::Ping => FrameAction::Ignore,
        FrameKind::Pong => FrameAction::Ignore,
        FrameKind::Raw => FrameAction::Ignore,
    }
}

/// The endpoint of a WebSocket transport.
#[derive(Debug, Clone, PartialEq)]
pub struct WebSocketTransport {
    /// WebSocket URL.
    url: String,
}

/// The endpoint of an HTTP transport.
#[derive(Debug, Clone, PartialEq)]
pub struct HttpTransport {
    /// HTTP URL.
    url: String,
}

/// Whether a scheme is one that the HTTP transport speaks.
pub open spec fn is_http(scheme: Seq<char>) -> bool {
    scheme == "http"@ || scheme == "https"@
}

/// The text of the error for a URL whose scheme the HTTP transport does not
/// speak.
pub open spec fn wrong_scheme(scheme: Seq<char>) -> Seq<char> {
    "Invalid URL scheme: "@ + scheme + ". Expected http or https"@
}

impl View for WebSocketTransport {
    type V = Seq<char>;

    closed spec fn view(&self) -> Seq<char> {
        self.url@
    }
}

impl View for HttpTransport {
    type V = Seq<char>;

    closed spec fn view(&self) -> Seq<char> {
        self.url@
    }
}

impl WebSocketTransport {
    /// Create a new WebSocket transport. A text that is no URL is refused
    /// with `UrlError`.
    pub fn new(url: &str) -> (r: Result<WebSocketTransport, Error>)
        ensures
            match r {
                Ok(t) => t@ == url@ && url_of(url@) is Some,
                Err(e) => url_of(url@) is None && e is UrlError,
            },
    {
        match read_url(url) {
            Ok(_) => Ok(WebSocketTransport { url: url.to_owned() }),
            Err(reason) => Err(Error::UrlError(reason)),
        }
    }

    /// The URL of the endpoint.
    pub fn url(&self) -> (u: &str)
        ensures
            u@ == self@,
    {
        self.url.as_str()
    }
}

impl HttpTransport {
    /// Create a new HTTP transport. A text that is no URL, and a URL whose
    /// scheme is neither `http` nor `https`, are refused with `UrlError`.
    pub fn new(url: &str) -> (r: Result<HttpTransport, Error>)
        ensures
            match r {
                Ok(t) => {
                    &&& t@ == url@
                    &&& url_of(url@) matches Some(parsed) && is_http(parsed.scheme)
                },
                Err(e) => match url_of(url@) {
                    Some(parsed) => {
                        &&& !is_http(parsed.scheme)
                        &&& e matches Error::UrlError(m) && m@ == wrong_scheme(parsed.scheme)
                    },
                    None => e is UrlError,
                },
            },
    {
        let parsed = match read_url(url) {
            Ok(parsed) => parsed,
            Err(reason) => {
                return Err(Error::UrlError(reason));
            },
        };
        if !str_eq(parsed.scheme.as_str(), "http") && !str_eq(parsed.scheme.as_str(), "https") {
            let mut message = "Invalid URL scheme: ".to_owned();
            message.append(parsed.scheme.as_str());
            message.append(". Expected http or https");
            return Err(Error::UrlError(message));
        }
        Ok(HttpTransport { url: url.to_owned() })
    }

    /// The URL of the endpoint.
    pub fn url(&self) -> (u: &str)
        ensures
            u@ == self@,
    {
        self.url.as_str()
    }
}

} // verus!
