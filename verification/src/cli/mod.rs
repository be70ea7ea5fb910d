//! The command-line tool's decisions: reading arguments, choosing what to do, and what to report.

pub mod utils;
pub mod collect;
pub mod list_output;
pub mod search_output;
pub mod show_output;
pub mod delete;
pub mod edit;
pub mod show;
pub mod search;
pub mod commands;
