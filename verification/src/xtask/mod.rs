//! Release tooling: the next calendar version and the packaging plans.

pub mod next_version;
pub mod package;
