//! Verified core of the Browsers link chooser: the picker model, URL rule
//! matching, picker geometry and key handling, profile-watch decisions,
//! D-Bus activation planning, and the release tooling's version and
//! packaging plans.

pub mod text;
pub mod url_rule;
pub mod config;
pub mod gui;
pub mod xtask;
pub mod profile_watcher;
pub mod communicate;
pub mod launch;
pub mod macos;
