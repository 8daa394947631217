//! The RPC gateway of a payment node: the wire schema and its binary codec,
//! the translation of node values into wire messages, the server's dispatch
//! of a request to the node call it stands for, and the client's reading of
//! a response.

pub mod call;
pub mod checks;
pub mod client;
pub mod codec;
pub mod config;
pub mod errors;
pub mod ids;
pub mod laws;
pub mod node;
pub mod operation;
pub mod protos;
pub mod service;
pub mod text;
pub mod translate;
