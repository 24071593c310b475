//! Verified core of the Roblox Studio bridge: the tunnel-output scanner,
//! the MCP request router, the plugin command queue, configuration and the
//! shared log/UI state.

pub mod text;
pub mod tunnel;
pub mod bridge;
pub mod json;
pub mod mcp;
pub mod config;
pub mod state;
pub mod settings;
pub mod tools;
