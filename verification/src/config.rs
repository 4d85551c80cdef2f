//! The configuration and discovered browser profiles that the picker model
//! is built from, held as plain values.

use vstd::prelude::*;
use crate::url_rule::UrlGlobMatcher;

verus! {

/// A chosen profile and whether it opens in private mode.
pub struct ProfileAndOptions {
    pub profile: String,
    pub incognito: bool,
}

/// A saved opening rule.
pub struct ConfigRule {
    pub source_app: Option<String>,
    pub url_pattern: Option<String>,
    pub opener: Option<ProfileAndOptions>,
}

impl ConfigRule {
    /// The source application the rule is restricted to, if any.
    pub fn get_source_app(&self) -> (r: Option<String>)
        ensures
            r == self.source_app,
    {
        match &self.source_app {
            Some(s) => Some(s.clone()),
            None => None,
        }
    }

    /// The URL pattern the rule is restricted to, if any.
    pub fn get_url_pattern(&self) -> (r: Option<String>)
        ensures
            r == self.url_pattern,
    {
        match &self.url_pattern {
            Some(s) => Some(s.clone()),
            None => None,
        }
    }
}

/// The configured colour theme.
#[derive(Clone, Copy, Debug, PartialEq, Eq, Structural)]
pub enum ConfiguredTheme {
    Auto,
    Light,
    Dark,
}

/// Appearance settings of the configuration.
pub struct UIConfig {
    pub show_hotkeys: bool,
    pub quit_on_lost_focus: bool,
    pub theme: ConfiguredTheme,
}

/// Link-handling settings of the configuration.
pub struct BehavioralConfig {
    pub unwrap_urls: bool,
    pub strip_tracking_parameters: bool,
}

/// The saved configuration.
pub struct Config {
    pub rules: Vec<ConfigRule>,
    pub default_profile: Option<ProfileAndOptions>,
    pub ui: UIConfig,
    pub behavior: BehavioralConfig,
}

/// A discovered browser profile.
pub struct CommonBrowserProfile {
    pub restricted_url_matchers: Vec<UrlGlobMatcher>,
    pub browser_name: String,
    pub profile_name: String,
    pub has_real_profiles: bool,
    pub supports_incognito: bool,
    pub browser_icon_path: String,
    pub profile_icon_path: Option<String>,
    pub unique_id: String,
    pub unique_app_id: String,
}

impl CommonBrowserProfile {
    /// Profiles restricted to certain URLs are listed before the others.
    pub open spec fn spec_has_priority_ordering(&self) -> bool {
        self.restricted_url_matchers@.len() > 0
    }

    /// Whether the profile is restricted to certain URLs.
    pub fn has_priority_ordering(&self) -> (r: bool)
        ensures
            r == self.spec_has_priority_ordering(),
    {
        self.restricted_url_matchers.len() > 0
    }
}

} // verus!
