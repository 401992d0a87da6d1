//! Rules for inspecting, repairing and migrating Windows user profiles.
//!
//! The library decides; the program around it reads the registry, the file system
//! and the clock, hands in what it found and carries out what is decided.
pub mod broker;
pub mod clock;
pub mod command_line;
pub mod console_launch;
pub mod constants;
pub mod controller;
pub mod copy_history;
pub mod copying;
pub mod hashing;
pub mod i18n;
pub mod journal;
pub mod legacy;
pub mod legacy_history;
pub mod legacy_run;
pub mod locale;
pub mod migration;
pub mod migration_history;
pub mod migration_progress;
pub mod migration_rollback;
pub mod migration_run;
pub mod migration_view;
pub mod models;
pub mod operation;
pub mod path_laws;
pub mod paths;
pub mod registry;
pub mod rendering;
pub mod repair;
pub mod repair_history;
pub mod repair_run;
pub mod restart_manager;
pub mod rollback;
pub mod scan_findings;
pub mod scan_run;
pub mod scanner;
pub mod secure_dir;
pub mod secure_fs;
pub mod security;
pub mod shell;
pub mod snapshot;
pub mod snapshot_history;
pub mod startup;
pub mod status;
pub mod storage;
pub mod text;
pub mod text_laws;
pub mod token_run;
pub mod tokens;
pub mod ui_languages;
pub mod view_model;
pub mod window;
