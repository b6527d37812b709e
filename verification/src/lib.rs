pub mod auth;
pub mod jwt;
pub mod config;
pub mod mailer;
pub mod crypto;
pub mod error;
pub mod json;
pub mod handlers;
pub mod middleware;
pub mod script_hooks;
pub mod rule_cache;
pub mod scheduler;
pub mod login_limit;
pub mod audit_chain;
pub mod api_manifest;
pub mod text;
