//! State mirror and display policies for a status bar that follows a tiling
//! window manager.
//!
//! The crate keeps a per-monitor model of workspaces, containers and windows
//! in step with the window manager's state, chooses one fixed display policy
//! per widget from the configured display format, and turns clicks into
//! ordered command batches.

pub mod bars;
pub mod command;
pub mod config;
pub mod container;
pub mod error;
pub mod laws;
pub mod layout;
pub mod monitor;
pub mod notification;
pub mod paths;
pub mod state;
pub mod text;
pub mod widget;
