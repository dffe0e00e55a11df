//! Verified core of the Photoproof desktop shell: command admission, state
//! convergence, disk and WAL health, the application-health projection, the
//! embedder helper protocol and slot lifecycle, offline backup checks, the
//! per-image journal rows, folder listings and the smaller pieces of shell
//! bookkeeping around them.
pub mod text;
pub mod command_work;
pub mod bootstrap;
pub mod convergence;
pub mod disk;
pub mod dto;
pub mod lifecycle;
pub mod health;
pub mod doctor;
pub mod sweep;
pub mod issues;
pub mod application;
pub mod embedders;
pub mod time;
pub mod backup;
pub mod settings;
pub mod os;
pub mod capture;
pub mod announce;
pub mod hardware;
pub mod panel;
pub mod heatmap;
pub mod folders;
pub mod roots;
pub mod diagnostics;
pub mod journal;
