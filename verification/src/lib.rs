//! The core of an agent runtime: sessions and their messages, runs with
//! their tasks, plans, steps, events and tool calls, the catalog of skills,
//! subagents, providers and MCP servers, long-term memory documents, the
//! choice of provider and model, and the tool loop that drives a model
//! through local tools, each operation with its contract.
pub mod completion;
pub mod domain;
pub mod error;
pub mod events;
pub mod ids;
pub mod json;
pub mod laws;
pub mod ordering;
pub mod paths;
pub mod prompts;
pub mod ripgrep;
pub mod routing;
pub mod run_flow;
pub mod scan;
pub mod store;
pub mod table;
pub mod test_support;
pub mod text;
pub mod tool_driver;
pub mod tool_loop;
pub mod tools;
