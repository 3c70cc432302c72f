//! Navigation state machine and project catalog of a terminal project launcher.
//!
//! The library decides; its caller lists directories, runs probes and programs, saves the
//! settings and draws the screen, handing the results back as plain values.

pub mod app;
pub mod catalog;
pub mod launch;
pub mod listing;
pub mod models;
pub mod sorting;
pub mod text;

pub use app::{App, Effect, Key, PendingOpen};
pub use catalog::{DirEntry, Probe};
pub use launch::{CloneJob, CloneTool, Command, Launch};
pub use models::{default_terminal_cmd, default_theme, AppMode, Config, ProjectInfo};
