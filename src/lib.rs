//! Two-sided email synchronization engine: folder and envelope diffing,
//! permission masking, hunk execution planning, plus the small pieces of
//! backend configuration and message rendering the engine relies on.

pub mod sync;
pub mod folder;
pub mod event;
pub mod folder_patch;
pub mod flag;
pub mod envelope;
pub mod email_patch;
pub mod convergence;
pub mod policy;
pub mod report;
pub mod email_work;
pub mod text;
pub mod interpreter;
pub mod imap_config;
pub mod backend;
pub mod maildir;
pub mod smtp;
pub mod keyring;
pub mod oauth;
pub mod config;
pub mod notmuch;
