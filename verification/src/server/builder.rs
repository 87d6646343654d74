//! Builder for configuring and creating MCP servers.

use crate::json::{insert_member, members_view, opt_chars, set_member, Json};
use crate::protocol::ImplementationView;
use crate::server::{Server, ServerCapabilities, ServerOptions};
use crate::server::state::ConnectionView;
use vstd::prelude::*;

verus! {

/// Builder for creating and configuring MCP servers.
pub struct ServerBuilder {
    /// Server options.
    options: ServerOptions,
}

impl ServerBuilder {
    /// The options set so far.
    pub closed spec fn options(&self) -> ServerOptions {
        self.options
    }

    /// Create a new server builder with default options: logging is on,
    /// every other capability is off, and requests time out after 30
    /// seconds.
    pub fn new() -> (b: ServerBuilder)
        ensures
            b.options().implementation@ == (ImplementationView {
                name: "mcpx-server"@,
                version: "0.1.0"@,
            }),
            b.options().capabilities.logging,
            !b.options().capabilities.completions,
            !b.options().capabilities.prompts,
            !b.options().capabilities.prompts_list_changed,
            !b.options().capabilities.resources,
            !b.options().capabilities.resources_list_changed,
            !b.options().capabilities.resources_subscribe,
            !b.options().capabilities.tools,
            !b.options().capabilities.tools_list_changed,
            b.options().capabilities.experimental@.len() == 0,
            b.options().instructions is None,
            b.options().auto_acknowledge_ping,
            b.options().default_timeout_ms == 30000,
    {
        ServerBuilder { options: ServerOptions::default() }
    }

    /// Set the server implementation name and version.
    pub fn with_implementation(self, name: &str, version: &str) -> (b: ServerBuilder)
        ensures
            b.options().implementation@ == (ImplementationView { name: name@, version: version@ }),
            b.options().capabilities == self.options().capabilities,
            b.options().instructions == self.options().instructions,
            b.options().auto_acknowledge_ping == self.options().auto_acknowledge_ping,
            b.options().default_timeout_ms == self.options().default_timeout_ms,
    {
        let mut b = self;
        b.options.implementation.name = name.to_owned();
        b.options.implementation.version = version.to_owned();
        b
    }

    /// Set server instructions for clients.
    pub fn with_instructions(self, instructions: &str) -> (b: ServerBuilder)
        ensures
            opt_chars(b.options().instructions) == Some(instructions@),
            b.options().implementation == self.options().implementation,
            b.options().capabilities == self.options().capabilities,
            b.options().auto_acknowledge_ping == self.options().auto_acknowledge_ping,
            b.options().default_timeout_ms == self.options().default_timeout_ms,
    {
        let mut b = self;
        b.options.instructions = Some(instructions.to_owned());
        b
    }

    /// Set whether to automatically acknowledge ping requests.
    pub fn with_auto_acknowledge_ping(self, enable: bool) -> (b: ServerBuilder)
        ensures
            b.options() == (ServerOptions { auto_acknowledge_ping: enable, ..self.options() }),
    {
        let mut b = self;
        b.options.auto_acknowledge_ping = enable;
        b
    }

    /// Set the default timeout for requests in milliseconds.
    pub fn with_default_timeout(self, timeout_ms: u64) -> (b: ServerBuilder)
        ensures
            b.options() == (ServerOptions { default_timeout_ms: timeout_ms, ..self.options() }),
    {
        let mut b = self;
        b.options.default_timeout_ms = timeout_ms;
        b
    }

    /// Enable logging capability.
    pub fn with_logging(self, enable: bool) -> (b: ServerBuilder)
        ensures
            b.options() == (ServerOptions {
                capabilities: ServerCapabilities { logging: enable, ..self.options().capabilities },
                ..self.options()
            }),
    {
        let mut b = self;
        b.options.capabilities.logging = enable;
        b
    }

    /// Enable completions capability.
    pub fn with_completions(self, enable: bool) -> (b: ServerBuilder)
        ensures
            b.options() == (ServerOptions {
                capabilities: ServerCapabilities {
                    completions: enable,
                    ..self.options().capabilities
                },
                ..self.options()
            }),
    {
        let mut b = self;
        b.options.capabilities.completions = enable;
        b
    }

    /// Enable prompts capability.
    pub fn with_prompts(self, enable: bool) -> (b: ServerBuilder)
        ensures
            b.options() == (ServerOptions {
                capabilities: ServerCapabilities { prompts: enable, ..self.options().capabilities },
                ..self.options()
            }),
    {
        let mut b = self;
        b.options.capabilities.prompts = enable;
        b
    }

    /// Enable prompts list changed notifications capability.
    pub fn with_prompts_list_changed(self, enable: bool) -> (b: ServerBuilder)
        ensures
            b.options() == (ServerOptions {
                capabilities: ServerCapabilities {
                    prompts_list_changed: enable,
                    ..self.options().capabilities
                },
                ..self.options()
            }),
    {
        let mut b = self;
        b.options.capabilities.prompts_list_changed = enable;
        b
    }

    /// Enable resources capability.
    pub fn with_resources(self, enable: bool) -> (b: ServerBuilder)
        ensures
            b.options() == (ServerOptions {
                capabilities: ServerCapabilities {
                    resources: enable,
                    ..self.options().capabilities
                },
                ..self.options()
            }),
    {
        let mut b = self;
        b.options.capabilities.resources = enable;
        b
    }

    /// Enable resources list changed notifications capability.
    pub fn with_resources_list_changed(self, enable: bool) -> (b: ServerBuilder)
        ensures
            b.options() == (ServerOptions {
                capabilities: ServerCapabilities {
                    resources_list_changed: enable,
                    ..self.options().capabilities
                },
                ..self.options()
            }),
    {
        let mut b = self;
        b.options.capabilities.resources_list_changed = enable;
        b
    }

    /// Enable resources subscribe capability.
    pub fn with_resources_subscribe(self, enable: bool) -> (b: ServerBuilder)
        ensures
            b.options() == (ServerOptions {
                capabilities: ServerCapabilities {
                    resources_subscribe: enable,
                    ..self.options().capabilities
                },
                ..self.options()
            }),
    {
        let mut b = self;
        b.options.capabilities.resources_subscribe = enable;
        b
    }

    /// Enable tools capability.
    pub fn with_tools(self, enable: bool) -> (b: ServerBuilder)
        ensures
            b.options() == (ServerOptions {
                capabilities: ServerCapabilities { tools: enable, ..self.options().capabilities },
                ..self.options()
            }),
    {
        let mut b = self;
        b.options.capabilities.tools = enable;
        b
    }

    /// Enable tools list changed notifications capability.
    pub fn with_tools_list_changed(self, enable: bool) -> (b: ServerBuilder)
        ensures
            b.options() == (ServerOptions {
                capabilities: ServerCapabilities {
                    tools_list_changed: enable,
                    ..self.options().capabilities
                },
                ..self.options()
            }),
    {
        let mut b = self;
        b.options.capabilities.tools_list_changed = enable;
        b
    }

    /// Add an experimental capability. The value is kept under the name, in
    /// place of one that was kept there.
    pub fn with_experimental(self, name: &str, value: Json) -> (b: ServerBuilder)
        ensures
            members_view(b.options().capabilities.experimental@) == insert_member(
                members_view(self.options().capabilities.experimental@),
                name@,
                value@,
            ),
            b.options().capabilities.logging == self.options().capabilities.logging,
            b.options().capabilities.completions == self.options().capabilities.completions,
            b.options().capabilities.prompts == self.options().capabilities.prompts,
            b.options().capabilities.prompts_list_changed
                == self.options().capabilities.prompts_list_changed,
            b.options().capabilities.resources == self.options().capabilities.resources,
            b.options().capabilities.resources_list_changed
                == self.options().capabilities.resources_list_changed,
            b.options().capabilities.resources_subscribe
                == self.options().capabilities.resources_subscribe,
            b.options().capabilities.tools == self.options().capabilities.tools,
            b.options().capabilities.tools_list_changed
                == self.options().capabilities.tools_list_changed,
            b.options().implementation == self.options().implementation,
            b.options().instructions == self.options().instructions,
            b.options().auto_acknowledge_ping == self.options().auto_acknowledge_ping,
            b.options().default_timeout_ms == self.options().default_timeout_ms,
    {
        let mut b = self;
        set_member(&mut b.options.capabilities.experimental, name, value);
        b
    }

    /// Build the server: it is stopped and has no connection.
    pub fn build(self) -> (s: Server)
        ensures
            s.state() is Stopped,
            s.connections() == Map::<Seq<char>, ConnectionView>::empty(),
            s.options() == self.options(),
    {
        Server::new(self.options)
    }
}

} // verus!
