//! Session engine of a terminal viewer for HTTP Archive logs: the selection
//! state machine, the key bindings, and the projections that flatten a parsed
//! archive into display-ready rows.

pub mod app;
pub mod detail;
pub mod event;
pub mod handler;
pub mod har;
pub mod laws;
pub mod lifecycle;
pub mod locator;
pub mod media;
pub mod row;
pub mod size;
pub mod summary;
pub mod tabs;
pub mod text;
