//! macOS menu-bar integration.

pub mod status_item;
