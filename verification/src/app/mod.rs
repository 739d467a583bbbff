//! TUI application state and key handling, independent of rendering and I/O.
//!
//! The TUI has a single view: a live quota dashboard whose lower half is a
//! tabbed detail pane. Three transient overlays (help, shutdown confirmation,
//! settings) draw *over* it rather than replacing it, so there is no screen
//! stack and no per-screen keymap to keep straight.

pub mod accounts;
pub mod config;
pub mod input;
pub mod keys;
pub mod laws;
pub mod pane;
pub mod recent;
pub mod roster;
pub mod settings;
pub mod state;
pub mod tabs;

pub use roster::{RowRef, Selection};
pub use settings::{step_interval, SettingsRow, INTERVAL_RUNGS};
pub use state::{Action, App, DetailQuery, Trend};
pub use tabs::{DetailTab, Overlay, Pane, TimeRange};
