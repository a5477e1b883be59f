//! Model Context Protocol data types exposed by the tooling layer.

use vstd::prelude::*;

verus! {

/// Relies on serde_json::Value as an opaque JSON document; nothing about
/// its contents is assumed, it is only carried through.
#[verifier::external_type_specification]
#[verifier::external_body]
pub struct ExValue(serde_json::Value);

/// MCP tool definition.
#[derive(Debug)]
pub struct McpTool {
    pub name: String,
    pub description: String,
    pub input_schema: serde_json::Value,
}

/// MCP response.
#[derive(Debug, Clone)]
pub struct McpResponse {
    pub content: Vec<McpContent>,
}

/// MCP content type.
#[derive(Debug, Clone)]
pub enum McpContent {
    Text { text: String },
    Resource { uri: String, data: String },
}

} // verus!
