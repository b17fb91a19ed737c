//! Core logic of the Apex coding agent: configuration, model routing,
//! tool planning, surgical edits, the agent step machine and the prompt
//! editor state of the terminal interface.
pub mod text;
pub mod edit;
pub mod skills;
pub mod config;
pub mod provider;
pub mod agent;
pub mod tui;
pub mod tools;
pub mod search;
pub mod theme;
