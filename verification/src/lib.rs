pub mod text;
pub mod clock;
pub mod wrap;
pub mod vm_id;
pub mod string_map;
pub mod config;
pub mod libvirt_manager;
pub mod env_manager;
pub mod ollama_manager;
pub mod bedrock_manager;
pub mod policy;
pub mod ssh_manager;
pub mod session_manager;
pub mod audit_engine;
pub mod mcp;
pub mod cli;
pub mod tui;
pub mod env_tui;
