//! Password vault messaging logic: the verified core of a small system in
//! which agents fetch passwords from a vault service over DIDComm, through an
//! HTTP bridge and an MCP tool server.

pub mod text;
pub mod protocol;
pub mod vault;
pub mod service;
pub mod bridge;
pub mod mcp;
pub mod client;
pub mod jsonrpc;
