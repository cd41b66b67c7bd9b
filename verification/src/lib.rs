//! Verified core of a reverse proxy: configuration parsing, routing
//! decisions, error-page selection, abuse blocking and in-memory logs.

pub mod outside;
pub mod text;
pub mod assoc;
pub mod ip_blocklist;
pub mod templates;
pub mod errors;
pub mod upstream_policy;
pub mod host_str;
pub mod proxy_pass;
pub mod endpoint;
pub mod headers;
pub mod proxy_logs;
pub mod metrics;
pub mod pending_uploads;
pub mod settings;
pub mod ui;
pub mod google_auth;
pub mod request_flow;
pub mod tunnel;
pub mod conn_pool;
pub mod ssh_content;
pub mod static_content;
pub mod app_config;
pub mod dashboard;
pub mod content_sources;
