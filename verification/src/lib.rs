//! Verified core of `codeloop`, a loop-based coding agent.
//!
//! The library holds the agent's decision logic (plan state, system prompt,
//! the human-in-the-loop protocol and the agent loop as a state machine),
//! the tool registry, and the pure parts of every built-in tool: argument
//! handling, path filtering, line splitting and numbering, output formatting
//! and test-command selection.  Everything that touches the network, the
//! file system, processes or the terminal lives in the application crate.

pub mod text;

pub mod agent;
pub mod config;
pub mod hitl;
pub mod json;
pub mod plan;
pub mod llm;
pub mod paths;
pub mod tools;
