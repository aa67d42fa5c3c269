//! Client-side request building and response handling for the Transmission RPC protocol.
pub mod json;
pub mod json_rpc;
pub mod types;
pub mod session;
