//! Verified core of a client for Last.fm's scrobble-editing web interface.

pub mod text;
pub mod types;
pub mod session;
pub mod retry;
pub mod delete_manifest;
pub mod html;
pub mod encoding;
pub mod edit_analysis;
pub mod parsing;
pub mod api;
pub mod vcr;
pub mod login;
pub mod headers;
pub mod client;
pub mod scrobble_edit_context;
pub mod discovery;
pub mod session_persistence;
pub mod iterator;
pub mod cli;
pub mod laws;
