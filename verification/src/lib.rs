//! Tools over a chain's JSON-RPC endpoint, served to a host by name.
//!
//! A call comes in as a tool name and raw arguments. The registry finds the
//! tool, the schema decodes the arguments, and a small state machine says
//! what to do next: connect the endpoint, ask the node, or hand out the
//! result. Everything that is decided is decided here and proved against its
//! meaning; talking to the node is left to whoever runs the call.

pub mod account_tools;
pub mod block;
pub mod block_tools;
pub mod chain_tools;
pub mod common;
pub mod dispatch;
pub mod envelope;
pub mod primitives;
pub mod provider;
pub mod quantity;
pub mod registry;
pub mod schema;
pub mod server;
pub mod text;
pub mod utility_tools;
pub mod value;
