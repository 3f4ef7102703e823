//! Wayland backend of a notification daemon.
//!
//! The library holds every decision of the backend: which requests go to the
//! compositor and in which order, how a notification is drawn, how failures
//! are reported, and how the message template is prepared.  The program around
//! it talks to the compositor and hands back what the compositor answered.

pub mod backend;
pub mod config;
pub mod draw;
pub mod effects;
pub mod error;
pub mod events;
pub mod host;
pub mod laws;
pub mod scan;
pub mod scan_laws;
pub mod setup;
pub mod state;
pub mod template;
