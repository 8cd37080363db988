//! The rules of a command-line client for a digital-asset marketplace.
pub mod args;
pub mod auth;
pub mod chunks;
pub mod claim;
pub mod claim_batch;
pub mod clock;
pub mod config;
pub mod digest;
pub mod download;
pub mod download_flow;
pub mod download_resolver;
pub mod error;
pub mod fab_browser;
pub mod fab_daemon;
pub mod fab_session;
pub mod json;
pub mod library_cache;
pub mod log;
pub mod ownership;
pub mod paths;
pub mod report;
pub mod script;
pub mod search;
pub mod skill;
pub mod state;
pub mod text;
pub mod token_storage;
pub mod update;
pub mod update_check;
pub mod webview_host;
pub mod wire;
