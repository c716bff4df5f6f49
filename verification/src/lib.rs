//! Verified core of the rataria recon tracker: data models, import
//! parsing and reconciliation, report rendering and TUI navigation state.

pub mod db;
pub mod error;
pub mod text;
pub mod textops;
pub mod models;
pub mod report;
pub mod sql;
pub mod store;
pub mod ids;
pub mod image_preview;
pub mod help;
pub mod generic;
pub mod ratazana;
pub mod queries;
pub mod importer;
pub mod app;
pub mod export;
pub mod import_format;
pub mod crypto;
pub mod laws;
pub mod keys;
pub mod handle_items;
pub mod handle_targets;
pub mod numbers;
pub mod handle_subdomains;
pub mod handle_engagements;
pub mod handle_session;
pub mod overview;
pub mod session_laws;
