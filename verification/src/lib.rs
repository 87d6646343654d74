//! A sans-I/O engine for the Model Context Protocol: JSON-RPC envelopes,
//! request correlation, capability gating and the session state machines.

pub mod error;
pub mod json;
pub mod protocol;
pub mod client;
pub mod utils;
pub mod server;
pub mod transport;

pub use client::Client;
pub use client::ClientBuilder;
pub use error::Error;
pub use protocol::Implementation;
pub use server::Server;
pub use server::ServerBuilder;
