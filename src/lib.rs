//! Release orchestration: version semantics and chat command parsing.
pub mod command;
pub mod text;
pub mod version;
pub mod orchestrator;
