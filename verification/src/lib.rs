//! Core logic of the Agneax Store client: catalog data, install planning,
//! download bookkeeping, shortcut and log text generation.

pub mod text;
pub mod logger;
pub mod checksum;
pub mod platform;
pub mod catalog;
pub mod settings;
pub mod install;
pub mod install_laws;
pub mod commands;
pub mod direct;
pub mod downloader;
pub mod active;
pub mod launcher;
pub mod shortcut;
pub mod detect;
