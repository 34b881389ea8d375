//! Adapters around the agent framework: workspace paths, MCP server
//! descriptions and the long-term memory store.

pub mod file_io;
pub mod mcp_gateway;
pub mod memory;
pub mod provider;
