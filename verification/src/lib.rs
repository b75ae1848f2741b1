//! Capability-invocation core of an LLM-driven agent.
//!
//! A registry of pluggable tools (HTTP access, search, financial data, ...)
//! that an agent invokes by name: tool descriptors with a dependency-ordered
//! activation lifecycle, a per-tool state store with typed dispatch, a
//! per-branch command context, and the feature model that describes each
//! action to the agent.

pub mod alphavantage;
pub mod context;
pub mod dispatch;
pub mod lifecycle;
pub mod errors;
pub mod feature;
pub mod identity;
pub mod store;
pub mod value;
