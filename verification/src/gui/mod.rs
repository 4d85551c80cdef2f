//! The picker and settings views' data and decisions, without toolkit
//! types.

pub mod model;
pub mod window_placement;
pub mod picker;
pub mod settings;
pub mod windows;
