//! The logic of each subcommand.
pub mod list;
pub mod new;
pub mod start;
pub mod validate;
