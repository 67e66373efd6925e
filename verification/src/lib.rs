//! Verified core of a vertical status bar for the niri compositor: the
//! workspace list it keeps, how niri events change it, and the small
//! decisions behind the bar's widgets.

pub mod component;
pub mod event;
pub mod global;
pub mod png;
mod sealed;
pub mod text;
pub mod widget;
pub mod workspace;
