//! SyncNote's verified core: the rules, decisions, text processing and wire
//! protocol behind a notes app with personal notes and live-collaborative
//! shared pages.

pub mod roles;
pub mod models;
pub mod text;
pub mod markdown;
pub mod sync;
pub mod password;
pub mod auth;
pub mod tokens;
pub mod files;
pub mod emails;
pub mod notes;
pub mod pages;
pub mod admin;
pub mod numbers;
pub mod mailer;
pub mod db;
pub mod passkeys;
pub mod tag_safety;
pub mod ui;
pub mod export;
pub mod autosave;
pub mod ceremonies;
