//! Acquisition and launch of companion command-line tools: platform naming,
//! release asset selection, checksum verification, archive member extraction,
//! cache layout and the acquisition state machine.
pub mod error;
pub mod text;
pub mod platform;
pub mod checksum;
pub mod archive;
pub mod release;
pub mod downloader;
pub mod progress;
pub mod runner;
pub mod config;
pub mod menu;
