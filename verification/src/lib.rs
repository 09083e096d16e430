//! Start cmux projects from tmuxinator-style project files: the verified core.
pub mod cli;
pub mod cmux;
pub mod commands;
pub mod completion;
pub mod config;
pub mod formatting;
pub mod layout;
pub mod messages;
pub mod paths;
pub mod search;
pub mod text;
pub mod templates;
