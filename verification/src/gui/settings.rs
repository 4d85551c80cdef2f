//! The settings view's decisions: labels, tab and theme positions, and how
//! edits change the settings values.

use vstd::prelude::*;
use vstd::string::*;
use crate::config::ConfiguredTheme;
use crate::gui::model::{
    browser_views, full_name, opener_view, SettingsTab, UIBrowser, UIBrowserView,
    UIProfileAndIncognito, UISettings, UISettingsRule,
};
use crate::text::{decimal, push_decimal};

verus! {

/// The position of the first browser at or after `i` whose unique id is
/// `id`.
pub open spec fn find_browser_from(bs: Seq<UIBrowserView>, id: Seq<char>, i: int) -> Option<int>
    decreases bs.len() - i,
{
    if i < 0 || i >= bs.len() {
        None
    } else if bs[i].unique_id == id {
        Some(i)
    } else {
        find_browser_from(bs, id, i + 1)
    }
}

/// The label of an opener choice: the chosen browser's full name, marked
/// private when it opens in private mode, or a prompt when nothing is
/// chosen or the chosen profile is not among the browsers.
pub open spec fn opener_label_text(opener: Option<(Seq<char>, bool)>, bs: Seq<UIBrowserView>) -> Seq<char> {
    match opener {
        Some((id, incognito)) => match find_browser_from(bs, id, 0) {
            Some(i) => full_name(bs[i]) + (if incognito { " · Private"@ } else { Seq::empty() }),
            None => "Choose an opener"@,
        },
        None => "Choose an opener"@,
    }
}

/// The label shown for an opener choice.
pub fn opener_label(opener: &Option<UIProfileAndIncognito>, browsers: &[UIBrowser]) -> (r: String)
    ensures
        r@ == opener_label_text(opener_view(*opener), browser_views(browsers@)),
{
    let ghost bs = browser_views(browsers@);
    match opener {
        None => String::from_str("Choose an opener"),
        Some(choice) => {
            let mut i: usize = 0;
            while i < browsers.len()
                invariant
                    i <= browsers@.len(),
                    bs == browser_views(browsers@),
                    opener_view(*opener) == Some((choice.profile@, choice.incognito)),
                    find_browser_from(bs, choice.profile@, 0) == find_browser_from(bs, choice.profile@, i as int),
                decreases browsers.len() - i,
            {
                if browsers[i].unique_id == choice.profile {
                    assert(bs[i as int] == browsers@[i as int]@);
                    let mut label = browsers[i].get_full_name();
                    if choice.incognito {
                        label.append(" · Private");
                    } else {
                        assert(label@ =~= label@ + Seq::<char>::empty());
                    }
                    return label;
                }
                i = i + 1;
            }
            String::from_str("Choose an opener")
        },
    }
}

/// The position of a tab in the tab bar.
pub open spec fn tab_position(tab: SettingsTab) -> usize {
    match tab {
        SettingsTab::General => 0,
        SettingsTab::Rules => 1,
        SettingsTab::Advanced => 2,
    }
}

impl SettingsTab {
    /// The position of the tab in the tab bar.
    pub fn index(&self) -> (r: usize)
        ensures
            r == tab_position(*self),
    {
        match self {
            SettingsTab::General => 0,
            SettingsTab::Rules => 1,
            SettingsTab::Advanced => 2,
        }
    }
}

/// Choosing the tab at a tab's position selects that tab again.
pub proof fn tab_positions_round_trip(tab: SettingsTab)
    ensures
        ({
            let i = tab_position(tab);
            (if i == 1 {
                SettingsTab::Rules
            } else if i == 2 {
                SettingsTab::Advanced
            } else {
                SettingsTab::General
            }) == tab
        }),
{
}

/// The position of a theme in the theme selector.
pub open spec fn theme_position(theme: ConfiguredTheme) -> usize {
    match theme {
        ConfiguredTheme::Auto => 0,
        ConfiguredTheme::Light => 1,
        ConfiguredTheme::Dark => 2,
    }
}

/// The theme at a position of the theme selector: 1 is Light, 2 is Dark,
/// every other position follows the system.
pub open spec fn theme_at(index: usize) -> ConfiguredTheme {
    if index == 1 {
        ConfiguredTheme::Light
    } else if index == 2 {
        ConfiguredTheme::Dark
    } else {
        ConfiguredTheme::Auto
    }
}

/// The position of a theme in the theme selector.
pub fn theme_index(theme: ConfiguredTheme) -> (r: usize)
    ensures
        r == theme_position(theme),
{
    match theme {
        ConfiguredTheme::Auto => 0,
        ConfiguredTheme::Light => 1,
        ConfiguredTheme::Dark => 2,
    }
}

/// The theme at a position of the theme selector.
pub fn theme_from_index(index: usize) -> (r: ConfiguredTheme)
    ensures
        r == theme_at(index),
{
    match index {
        1 => ConfiguredTheme::Light,
        2 => ConfiguredTheme::Dark,
        _ => ConfiguredTheme::Auto,
    }
}

/// Choosing the theme at a theme's position selects that theme again.
pub proof fn theme_positions_round_trip(theme: ConfiguredTheme)
    ensures
        theme_at(theme_position(theme)) == theme,
{
}

/// The appearance the system reports, when asked.
#[derive(Clone, Copy, Debug, PartialEq, Eq, Structural)]
pub enum DetectedMode {
    Dark,
    Light,
    /// The system gave no answer or the question failed.
    Unknown,
}

/// The appearance to apply.
#[derive(Clone, Copy, Debug, PartialEq, Eq, Structural)]
pub enum ThemeChoice {
    Dark,
    Light,
    /// Keep in step with the system's appearance.
    FollowSystem,
}

/// The appearance for a configured theme: fixed themes as configured;
/// the automatic theme as the system reports it, or following the system
/// when it does not say.
pub fn theme_choice(theme: ConfiguredTheme, detected: DetectedMode) -> (r: ThemeChoice)
    ensures
        r == (match theme {
            ConfiguredTheme::Light => ThemeChoice::Light,
            ConfiguredTheme::Dark => ThemeChoice::Dark,
            ConfiguredTheme::Auto => match detected {
                DetectedMode::Dark => ThemeChoice::Dark,
                DetectedMode::Light => ThemeChoice::Light,
                DetectedMode::Unknown => ThemeChoice::FollowSystem,
            },
        }),
{
    match theme {
        ConfiguredTheme::Auto => match detected {
            DetectedMode::Dark => ThemeChoice::Dark,
            DetectedMode::Light => ThemeChoice::Light,
            DetectedMode::Unknown => ThemeChoice::FollowSystem,
        },
        ConfiguredTheme::Light => ThemeChoice::Light,
        ConfiguredTheme::Dark => ThemeChoice::Dark,
    }
}

/// A settings change made in one window and passed on to the others.
#[derive(Clone, Copy, Debug, PartialEq, Eq, Structural)]
pub enum PickerSettingsUpdate {
    Theme(ConfiguredTheme),
    ShowHotkeys(bool),
    QuitOnLostFocus(bool),
    UnwrapUrls(bool),
}

/// The values the settings view edits for one rule.
pub struct RuleEditorValues {
    pub source_app: String,
    pub url_pattern: String,
    pub opener: Option<UIProfileAndIncognito>,
}

impl UISettings {
    /// Applies a settings change: exactly the changed value is replaced.
    pub fn apply_update(&mut self, update: PickerSettingsUpdate)
        ensures
            match update {
                PickerSettingsUpdate::Theme(t) => final(self).visual_settings == (crate::gui::model::UIVisualSettings {
                    theme: t,
                    ..old(self).visual_settings
                }) && final(self).behavioral_settings == old(self).behavioral_settings,
                PickerSettingsUpdate::ShowHotkeys(b) => final(self).visual_settings == (crate::gui::model::UIVisualSettings {
                    show_hotkeys: b,
                    ..old(self).visual_settings
                }) && final(self).behavioral_settings == old(self).behavioral_settings,
                PickerSettingsUpdate::QuitOnLostFocus(b) => final(self).visual_settings == (crate::gui::model::UIVisualSettings {
                    quit_on_lost_focus: b,
                    ..old(self).visual_settings
                }) && final(self).behavioral_settings == old(self).behavioral_settings,
                PickerSettingsUpdate::UnwrapUrls(b) => final(self).visual_settings
                    == old(self).visual_settings && final(self).behavioral_settings.unwrap_urls == b,
            },
            final(self).tab == old(self).tab,
            final(self).default_opener == old(self).default_opener,
            final(self).rules == old(self).rules,
    {
        match update {
            PickerSettingsUpdate::Theme(theme) => {
                self.visual_settings.theme = theme;
            },
            PickerSettingsUpdate::ShowHotkeys(show) => {
                self.visual_settings.show_hotkeys = show;
            },
            PickerSettingsUpdate::QuitOnLostFocus(quit) => {
                self.visual_settings.quit_on_lost_focus = quit;
            },
            PickerSettingsUpdate::UnwrapUrls(unwrap) => {
                self.behavioral_settings.unwrap_urls = unwrap;
            },
        }
    }

    /// The rules the settings view opens editors for: those not deleted,
    /// in order.
    pub fn editable_rules(&self) -> (r: Vec<UISettingsRule>)
        ensures
            r@ == self.rules@.filter(|rule: UISettingsRule| !rule.deleted),
    {
        let ghost keep = |rule: UISettingsRule| !rule.deleted;
        let mut r: Vec<UISettingsRule> = Vec::new();
        let mut i: usize = 0;
        while i < self.rules.len()
            invariant
                i <= self.rules@.len(),
                keep == (|rule: UISettingsRule| !rule.deleted),
                r@ == self.rules@.take(i as int).filter(keep),
            decreases self.rules.len() - i,
        {
            proof {
                assert(self.rules@.take(i + 1) =~= self.rules@.take(i as int).push(self.rules@[i as int]));
                self.rules@.take(i as int).lemma_filter_push(self.rules@[i as int], keep);
            }
            if !self.rules[i].deleted {
                r.push(self.rules[i].clone());
            }
            i = i + 1;
        }
        assert(self.rules@.take(self.rules@.len() as int) =~= self.rules@);
        r
    }
}

impl RuleEditorValues {
    /// The editor values of a rule: its source application, URL pattern
    /// and opener.
    pub fn from_rule(rule: &UISettingsRule) -> (r: Self)
        ensures
            r.source_app@ == rule.source_app@,
            r.url_pattern@ == rule.url_pattern@,
            r.opener == rule.opener,
    {
        RuleEditorValues {
            source_app: rule.source_app.clone(),
            url_pattern: rule.url_pattern.clone(),
            opener: match &rule.opener {
                Some(o) => Some(o.clone()),
                None => None,
            },
        }
    }
}

/// Adds an editor for a new, empty rule after the others.
pub fn add_rule_editor(editors: &mut Vec<RuleEditorValues>)
    ensures
        final(editors)@.len() == old(editors)@.len() + 1,
        final(editors)@.take(old(editors)@.len() as int) == old(editors)@,
        final(editors)@.last().source_app@ == Seq::<char>::empty(),
        final(editors)@.last().url_pattern@ == Seq::<char>::empty(),
        final(editors)@.last().opener is None,
{
    let ghost before = editors@;
    editors.push(RuleEditorValues { source_app: String::new(), url_pattern: String::new(), opener: None });
    assert(editors@.take(before.len() as int) =~= before);
}

/// Removes the editor at `index` when there is one, and returns whether it
/// did (the remaining rules are then saved).
pub fn remove_rule_editor(editors: &mut Vec<RuleEditorValues>, index: usize) -> (removed: bool)
    ensures
        removed == (index < old(editors)@.len()),
        removed ==> final(editors)@ == old(editors)@.remove(index as int),
        !removed ==> final(editors)@ == old(editors)@,
{
    if index < editors.len() {
        editors.remove(index);
        true
    } else {
        false
    }
}

/// The rules saved from the editors: one per editor, in order, numbered by
/// position, saved and not deleted.
pub fn rules_from_editors(editors: &Vec<RuleEditorValues>) -> (r: Vec<UISettingsRule>)
    ensures
        r@.len() == editors@.len(),
        forall|i: int| 0 <= i < r@.len() ==> {
            &&& (#[trigger] r@[i]).index == i
            &&& r@[i].saved
            &&& !r@[i].deleted
            &&& r@[i].source_app@ == editors@[i].source_app@
            &&& r@[i].url_pattern@ == editors@[i].url_pattern@
            &&& r@[i].opener == editors@[i].opener
        },
{
    let mut r: Vec<UISettingsRule> = Vec::new();
    let mut i: usize = 0;
    while i < editors.len()
        invariant
            i <= editors@.len(),
            r@.len() == i,
            forall|j: int| 0 <= j < i ==> {
                &&& (#[trigger] r@[j]).index == j
                &&& r@[j].saved
                &&& !r@[j].deleted
                &&& r@[j].source_app@ == editors@[j].source_app@
                &&& r@[j].url_pattern@ == editors@[j].url_pattern@
                &&& r@[j].opener == editors@[j].opener
            },
        decreases editors.len() - i,
    {
        let editor = &editors[i];
        r.push(UISettingsRule {
            index: i,
            saved: true,
            deleted: false,
            source_app: editor.source_app.clone(),
            url_pattern: editor.url_pattern.clone(),
            opener: match &editor.opener {
                Some(o) => Some(o.clone()),
                None => None,
            },
        });
        i = i + 1;
    }
    r
}

/// The opener chosen from a profile list: the profile, keeping the current
/// choice's private setting (off when nothing was chosen).
pub fn choose_opener(current: &Option<UIProfileAndIncognito>, profile: String) -> (r: UIProfileAndIncognito)
    ensures
        r.profile == profile,
        r.incognito == (current matches Some(c) && c.incognito),
{
    let incognito = match current {
        Some(c) => c.incognito,
        None => false,
    };
    UIProfileAndIncognito { profile, incognito }
}

/// Sets whether the chosen opener opens in private mode; returns false and
/// changes nothing when no opener is chosen.
pub fn set_opener_private(opener: &mut Option<UIProfileAndIncognito>, private: bool) -> (changed: bool)
    ensures
        changed == (*old(opener) is Some),
        match *old(opener) {
            Some(o) => *final(opener) == Some(UIProfileAndIncognito { incognito: private, ..o }),
            None => *final(opener) is None,
        },
{
    match opener {
        Some(o) => {
            o.incognito = private;
            true
        },
        None => false,
    }
}

/// The heading of the rule at position `index`: `RULE` and its number
/// counted from one, at least two digits wide.
pub open spec fn rule_heading_text(index: nat) -> Seq<char> {
    "RULE "@ + (if index + 1 < 10 { seq!['0'] } else { Seq::empty() }) + decimal(index + 1)
}

/// The heading of the rule at position `index`.
pub fn rule_heading(index: usize) -> (r: String)
    requires
        index < usize::MAX,
    ensures
        r@ == rule_heading_text(index as nat),
{
    let mut heading = String::from_str("RULE ");
    let number = (index + 1) as u64;
    if number < 10 {
        crate::text::push_char(&mut heading, '0');
    }
    push_decimal(&mut heading, number);
    heading
}

} // verus!
