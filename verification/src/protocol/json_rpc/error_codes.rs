//! Standard JSON-RPC error codes.

use vstd::prelude::*;

verus! {

/// Invalid JSON was received by the server.
pub const PARSE_ERROR: i32 = -32700;

/// The JSON sent is not a valid Request object.
pub const INVALID_REQUEST: i32 = -32600;

/// The method does not exist, or its capability is not enabled.
pub const METHOD_NOT_FOUND: i32 = -32601;

/// Invalid method parameter(s).
pub const INVALID_PARAMS: i32 = -32602;

/// Internal JSON-RPC error.
pub const INTERNAL_ERROR: i32 = -32603;

/// Custom MCP error codes can start at this value.
pub const MCP_ERROR_START: i32 = -32000;

/// A request other than `initialize` arrived before the session was
/// initialized.
pub const NOT_INITIALIZED: i32 = -32002;

} // verus!
