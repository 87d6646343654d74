//! Builder for configuring and creating MCP clients.

use crate::client::{Client, ClientCapabilities, ClientOptions};
use crate::client::pending::PendingView;
use crate::error::Error;
use crate::json::opt_chars;
use crate::protocol::{IdView, ImplementationView};
use crate::utils::text::texts;
use crate::transport::{is_http, wrong_scheme, HttpTransport, WebSocketTransport};
use crate::utils::uri::url_of;
use vstd::prelude::*;

verus! {

/// The transport that a built client is to be driven over.
#[derive(Debug)]
pub enum TransportChoice<T> {
    /// The transport that was handed to the builder.
    Custom(T),
    /// A WebSocket transport to the endpoint.
    WebSocket(WebSocketTransport),
    /// An HTTP transport to the endpoint.
    Http(HttpTransport),
}

/// Builder for creating and configuring MCP clients.
pub struct ClientBuilder<T> {
    /// Client options.
    options: ClientOptions,
    /// WebSocket URL.
    websocket_url: Option<String>,
    /// HTTP URL.
    http_url: Option<String>,
    /// Custom transport implementation.
    transport: Option<T>,
}

impl<T> ClientBuilder<T> {
    /// The options set so far.
    pub closed spec fn options(&self) -> ClientOptions {
        self.options
    }

    /// The WebSocket URL set, if any.
    pub closed spec fn websocket_url(&self) -> Option<Seq<char>> {
        opt_chars(self.websocket_url)
    }

    /// The HTTP URL set, if any.
    pub closed spec fn http_url(&self) -> Option<Seq<char>> {
        opt_chars(self.http_url)
    }

    /// The transport set, if any.
    pub closed spec fn transport(&self) -> Option<T> {
        self.transport
    }

    /// Create a new client builder with default options: no capability is
    /// on, roots changes are acknowledged, and requests time out after 30
    /// seconds.
    pub fn new() -> (b: ClientBuilder<T>)
        ensures
            b.options().implementation@ == (ImplementationView {
                name: "mcpx-client"@,
                version: "0.1.0"@,
            }),
            !b.options().capabilities.roots,
            !b.options().capabilities.roots_list_changed,
            !b.options().capabilities.sampling,
            b.options().capabilities.experimental@.len() == 0,
            b.options().auto_acknowledge_roots_changed,
            b.options().default_timeout_ms == 30000,
            b.websocket_url() is None,
            b.http_url() is None,
            b.transport() is None,
    {
        ClientBuilder {
            options: ClientOptions::default(),
            websocket_url: None,
            http_url: None,
            transport: None,
        }
    }

    /// Set the client implementation name and version.
    pub fn with_implementation(self, name: &str, version: &str) -> (b: ClientBuilder<T>)
        ensures
            b.options().implementation@ == (ImplementationView { name: name@, version: version@ }),
            b.options().capabilities == self.options().capabilities,
            b.options().auto_acknowledge_roots_changed
                == self.options().auto_acknowledge_roots_changed,
            b.options().default_timeout_ms == self.options().default_timeout_ms,
            b.websocket_url() == self.websocket_url(),
            b.http_url() == self.http_url(),
            b.transport() == self.transport(),
    {
        let mut b = self;
        b.options.implementation.name = name.to_owned();
        b.options.implementation.version = version.to_owned();
        b
    }

    /// Set the client capabilities.
    pub fn with_capabilities(self, capabilities: ClientCapabilities) -> (b: ClientBuilder<T>)
        ensures
            b.options() == (ClientOptions { capabilities, ..self.options() }),
            b.websocket_url() == self.websocket_url(),
            b.http_url() == self.http_url(),
            b.transport() == self.transport(),
    {
        let mut b = self;
        b.options.capabilities = capabilities;
        b
    }

    /// Enable roots listing capability.
    pub fn with_roots(self, enable: bool) -> (b: ClientBuilder<T>)
        ensures
            b.options() == (ClientOptions {
                capabilities: ClientCapabilities { roots: enable, ..self.options().capabilities },
                ..self.options()
            }),
            b.websocket_url() == self.websocket_url(),
            b.http_url() == self.http_url(),
            b.transport() == self.transport(),
    {
        let mut b = self;
        b.options.capabilities.roots = enable;
        b
    }

    /// Enable roots list changed notification capability.
    pub fn with_roots_list_changed(self, enable: bool) -> (b: ClientBuilder<T>)
        ensures
            b.options() == (ClientOptions {
                capabilities: ClientCapabilities {
                    roots_list_changed: enable,
                    ..self.options().capabilities
                },
                ..self.options()
            }),
            b.websocket_url() == self.websocket_url(),
            b.http_url() == self.http_url(),
            b.transport() == self.transport(),
    {
        let mut b = self;
        b.options.capabilities.roots_list_changed = enable;
        b
    }

    /// Enable sampling capability.
    pub fn with_sampling(self, enable: bool) -> (b: ClientBuilder<T>)
        ensures
            b.options() == (ClientOptions {
                capabilities: ClientCapabilities { sampling: enable, ..self.options().capabilities },
                ..self.options()
            }),
            b.websocket_url() == self.websocket_url(),
            b.http_url() == self.http_url(),
            b.transport() == self.transport(),
    {
        let mut b = self;
        b.options.capabilities.sampling = enable;
        b
    }

    /// Add an experimental capability.
    pub fn with_experimental(self, capability: &str) -> (b: ClientBuilder<T>)
        ensures
            texts(b.options().capabilities.experimental@) == texts(
                self.options().capabilities.experimental@,
            ).push(capability@),
            b.options().capabilities.roots == self.options().capabilities.roots,
            b.options().capabilities.roots_list_changed
                == self.options().capabilities.roots_list_changed,
            b.options().capabilities.sampling == self.options().capabilities.sampling,
            b.options().implementation == self.options().implementation,
            b.options().auto_acknowledge_roots_changed
                == self.options().auto_acknowledge_roots_changed,
            b.options().default_timeout_ms == self.options().default_timeout_ms,
            b.websocket_url() == self.websocket_url(),
            b.http_url() == self.http_url(),
            b.transport() == self.transport(),
    {
        let mut b = self;
        b.options.capabilities.experimental.push(capability.to_owned());
        assert(texts(b.options.capabilities.experimental@) =~= texts(
            self.options.capabilities.experimental@,
        ).push(capability@));
        b
    }

    /// Set whether to automatically acknowledge roots list changed
    /// notifications.
    pub fn with_auto_acknowledge_roots_changed(self, enable: bool) -> (b: ClientBuilder<T>)
        ensures
            b.options() == (ClientOptions {
                auto_acknowledge_roots_changed: enable,
                ..self.options()
            }),
            b.websocket_url() == self.websocket_url(),
            b.http_url() == self.http_url(),
            b.transport() == self.transport(),
    {
        let mut b = self;
        b.options.auto_acknowledge_roots_changed = enable;
        b
    }

    /// Set the default timeout for requests in milliseconds.
    pub fn with_default_timeout(self, timeout_ms: u64) -> (b: ClientBuilder<T>)
        ensures
            b.options() == (ClientOptions { default_timeout_ms: timeout_ms, ..self.options() }),
            b.websocket_url() == self.websocket_url(),
            b.http_url() == self.http_url(),
            b.transport() == self.transport(),
    {
        let mut b = self;
        b.options.default_timeout_ms = timeout_ms;
        b
    }

    /// Set the WebSocket URL to connect to. An HTTP URL set before is
    /// cleared.
    pub fn with_websocket_url(self, url: &str) -> (b: ClientBuilder<T>)
        ensures
            b.options() == self.options(),
            b.websocket_url() == Some(url@),
            b.http_url() is None,
            b.transport() == self.transport(),
    {
        let mut b = self;
        b.websocket_url = Some(url.to_owned());
        b.http_url = None;
        b
    }

    /// Set the HTTP URL to connect to. A WebSocket URL set before is
    /// cleared.
    pub fn with_http_url(self, url: &str) -> (b: ClientBuilder<T>)
        ensures
            b.options() == self.options(),
            b.http_url() == Some(url@),
            b.websocket_url() is None,
            b.transport() == self.transport(),
    {
        let mut b = self;
        b.http_url = Some(url.to_owned());
        b.websocket_url = None;
        b
    }

    /// Set a custom transport implementation.
    pub fn with_transport(self, transport: T) -> (b: ClientBuilder<T>)
        ensures
            b.options() == self.options(),
            b.websocket_url() == self.websocket_url(),
            b.http_url() == self.http_url(),
            b.transport() == Some(transport),
    {
        let mut b = self;
        b.transport = Some(transport);
        b
    }

    /// Build the client. A transport that was handed over is taken first,
    /// then the WebSocket URL, then the HTTP URL; a URL must name an
    /// endpoint of its transport. Without any of the three the build fails
    /// with `ConfigError`.
    pub fn build(self) -> (r: Result<(Client, TransportChoice<T>), Error>)
        ensures
            r matches Ok((client, _)) ==> {
                &&& client.wf()
                &&& client.state() is Disconnected
                &&& client.pending() == Map::<IdView, PendingView>::empty()
                &&& client.capabilities() is None
                &&& client.options() == self.options()
            },
            match self.transport() {
                Some(t) => r matches Ok((_, choice)) && choice == TransportChoice::Custom(t),
                None => match self.websocket_url() {
                    Some(w) => match url_of(w) {
                        Some(_) => r matches Ok((_, choice))
                            && choice matches TransportChoice::WebSocket(x) && x@ == w,
                        None => r matches Err(e) && e is UrlError,
                    },
                    None => match self.http_url() {
                        Some(h) => match url_of(h) {
                            Some(parsed) => if is_http(parsed.scheme) {
                                r matches Ok((_, choice))
                                    && choice matches TransportChoice::Http(x) && x@ == h
                            } else {
                                r matches Err(e) && e matches Error::UrlError(m) && m@
                                    == wrong_scheme(parsed.scheme)
                            },
                            None => r matches Err(e) && e is UrlError,
                        },
                        None => r matches Err(e) && e matches Error::ConfigError(m) && m@
                            == "No transport, WebSocket URL, or HTTP URL specified"@,
                    },
                },
            },
    {
        let choice = match self.transport {
            Some(t) => TransportChoice::Custom(t),
            None => match self.websocket_url {
                Some(url) => TransportChoice::WebSocket(WebSocketTransport::new(url.as_str())?),
                None => match self.http_url {
                    Some(url) => TransportChoice::Http(HttpTransport::new(url.as_str())?),
                    None => {
                        return Err(
                            Error::ConfigError(
                                "No transport, WebSocket URL, or HTTP URL specified".to_owned(),
                            ),
                        );
                    },
                },
            },
        };
        Ok((Client::new(self.options), choice))
    }
}

} // verus!
