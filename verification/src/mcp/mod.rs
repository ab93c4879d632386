//! The Model Context Protocol side: the shapes that travel, the catalog seen
//! as tools and resources, and the dispatcher.

pub mod params;
pub mod protocol;
pub mod resources;
pub mod server;
pub mod tools;

pub use protocol::{
    CallToolParams, Capabilities, ContentBlock, InitializeResult, JsonRpcError, JsonRpcRequest,
    JsonRpcResponse, ReadResourceParams, Resource, ResourceContent, ResourceContents,
    ResourcesCapability, ResourcesList, ServerInfo, Tool, ToolResult, ToolsCapability, ToolsList,
};
pub use server::McpServer;
