//! Verified core of the Composio tool integration: resilience state machines,
//! caches, session management, response interpretation and text heuristics.

pub mod clock;
pub mod text;
pub mod json;
pub mod store;
pub mod jsonrpc;
pub mod tool_result;
pub mod bash;
pub mod cache;
pub mod resilience;
pub mod meta_tools;
pub mod workbench;
pub mod observability;
pub mod cost_tracker;
pub mod onboarding;
pub mod code_generation;
pub mod composio_mcp;
pub mod staging;
pub mod office_edit;
pub mod extraction;
pub mod composio_nl;
pub mod nl_workflow;
pub mod composio_meta;
pub mod meta_workflow;
pub mod loading;
