//! Tinty: a Base16/Base24 theming manager — the verified core.
pub mod constants;
pub mod paths;
pub mod scheme_system;
pub mod text;
pub mod config;
pub mod scheme_repos;
pub mod outside;
pub mod utils;
pub mod repo;
pub mod hooks;
pub mod operations;
