//! The decision logic of a small Model Context Protocol server (JSON-RPC 2.0
//! over stdio) that drives a desktop: the request dispatcher, the tool
//! catalog, the planning of each tool call and the shaping of its result, and
//! the shell quoting that carries user text into commands.

pub mod text;
pub mod shell;
pub mod json;
pub mod catalog;
pub mod encoding;
pub mod tools;
pub mod rpc;
pub mod laws;
pub mod tool_laws;
