//! Tool-calling core: a JSON-RPC tool registry and dispatcher, the client side of
//! that protocol, and a conversation orchestrator that feeds tool results back into
//! a chat completion endpoint.

pub mod text;
pub mod mcp;
pub mod file_read;
pub mod server;
pub mod ollama;
pub mod session;

pub use file_read::{FileReadRequest, FileReadResponse, execute_file_read};
pub use mcp::{McpError, McpTool};
pub use ollama::{ChatMessage, ChatResponse};
pub use server::McpServer;
pub use session::ChatSession;
