//! Verified core of the Nexus agent harness: permission policies, plugin
//! manifests, skills and hooks, context budgeting, tool input validation,
//! the bounded tool loop and the small value types that tie them together.

pub mod agents;
pub mod config;
pub mod container;
pub mod context;
pub mod domain;
pub mod external;
pub mod json;
pub mod mcp;
pub mod models;
pub mod order;
pub mod permissions;
pub mod plugins;
pub mod runtime;
pub mod sdk;
pub mod skills;
pub mod storage;
pub mod text;
pub mod tools;
pub mod tui;
pub mod workspace;
pub mod worktree_list;
