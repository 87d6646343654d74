//! Client connection state.

use vstd::prelude::*;

verus! {

/// Current client connection state.
#[derive(Debug, Clone, Copy, PartialEq, Eq, Structural)]
pub enum ConnectionState {
    /// Not connected to server.
    Disconnected,
    /// Connecting to server.
    Connecting,
    /// Initializing protocol.
    Initializing,
    /// Fully initialized and ready.
    Initialized,
}

impl ConnectionState {
    /// Whether requests may be outstanding in this state: the transport is
    /// up and the handshake is in flight or done.
    pub open spec fn is_live(self) -> bool {
        self is Initializing || self is Initialized
    }

    /// The steps of the session state machine: a session connects, then
    /// initializes, then is initialized, and from every state it can be
    /// disconnected. Staying in a state is no step, but allowed.
    pub open spec fn may_become(self, next: ConnectionState) -> bool {
        ||| next == self
        ||| next is Disconnected
        ||| self is Disconnected && next is Connecting
        ||| self is Connecting && next is Initializing
        ||| self is Initializing && next is Initialized
    }

    /// Whether requests may be outstanding in this state.
    pub fn live(&self) -> (r: bool)
        ensures
            r == self.is_live(),
    {
        match self {
            ConnectionState::Initializing => true,
            ConnectionState::Initialized => true,
            _ => false,
        }
    }
}

/// Client state.
pub struct ClientState {
    /// Current connection state.
    connection_state: ConnectionState,
}

impl View for ClientState {
    type V = ConnectionState;

    closed spec fn view(&self) -> ConnectionState {
        self.connection_state
    }
}

impl ClientState {
    /// Create a new client state.
    pub fn new() -> (s: ClientState)
        ensures
            s@ == ConnectionState::Disconnected,
    {
        ClientState { connection_state: ConnectionState::Disconnected }
    }

    /// Get the current connection state.
    pub fn connection_state(&self) -> (c: ConnectionState)
        ensures
            c == self@,
    {
        self.connection_state
    }

    /// Set the client state to connecting.
    pub fn set_connecting(&mut self)
        ensures
            final(self)@ == ConnectionState::Connecting,
    {
        self.connection_state = ConnectionState::Connecting;
    }

    /// Set the client state to initializing.
    pub fn set_initializing(&mut self)
        ensures
            final(self)@ == ConnectionState::Initializing,
    {
        self.connection_state = ConnectionState::Initializing;
    }

    /// Set the client state to initialized.
    pub fn set_initialized(&mut self)
        ensures
            final(self)@ == ConnectionState::Initialized,
    {
        self.connection_state = ConnectionState::Initialized;
    }

    /// Set the client state to disconnected.
    pub fn set_disconnected(&mut self)
        ensures
            final(self)@ == ConnectionState::Disconnected,
    {
        self.connection_state = ConnectionState::Disconnected;
    }

    /// Check if the client is disconnected.
    pub fn is_disconnected(&self) -> (r: bool)
        ensures
            r == (self@ == ConnectionState::Disconnected),
    {
        self.connection_state == ConnectionState::Disconnected
    }

    /// Check if the client is connecting.
    pub fn is_connecting(&self) -> (r: bool)
        ensures
            r == (self@ == ConnectionState::Connecting),
    {
        self.connection_state == ConnectionState::Connecting
    }

    /// Check if the client is initializing.
    pub fn is_initializing(&self) -> (r: bool)
        ensures
            r == (self@ == ConnectionState::Initializing),
    {
        self.connection_state == ConnectionState::Initializing
    }

    /// Check if the client is initialized.
    pub fn is_initialized(&self) -> (r: bool)
        ensures
            r == (self@ == ConnectionState::Initialized),
    {
        self.connection_state == ConnectionState::Initialized
    }
}

impl Default for ClientState {
    fn default() -> (s: ClientState)
        ensures
            s@ == ConnectionState::Disconnected,
    {
        ClientState::new()
    }
}

} // verus!
