//! What the one view shows: header, quota gauges, tabbed detail pane, key bar,
//! and the overlays drawn on top of it.

pub mod cells;
pub mod chart;
pub mod detail;
pub mod formats;
pub mod gauges;
pub mod header;
pub mod layout;
pub mod listing;
pub mod overlay;
pub mod spans;
pub mod theme;
