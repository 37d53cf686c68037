//! A small JSON-RPC 2.0 client core for Ethereum-compatible nodes: request
//! construction, request ids, and interpretation of the node's answers.

pub mod json;
pub mod nonce;
pub mod request;
pub mod response;
pub mod results;
pub mod calls;
