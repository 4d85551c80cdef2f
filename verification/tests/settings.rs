use browsers::config::{CommonBrowserProfile, ConfiguredTheme};
use browsers::gui::model::{
    SettingsTab, UIBehavioralSettings, UIProfileAndIncognito, UISettings, UISettingsRule, UIState,
    UIVisualSettings,
};
use browsers::gui::settings::{
    add_rule_editor, remove_rule_editor, choose_opener, opener_label, rule_heading, rules_from_editors, set_opener_private,
    theme_choice, theme_from_index, theme_index, DetectedMode, PickerSettingsUpdate,
    RuleEditorValues, ThemeChoice,
};

fn profile(name: &str, profile_name: &str, real: bool) -> CommonBrowserProfile {
    CommonBrowserProfile {
        restricted_url_matchers: Vec::new(),
        browser_name: name.to_string(),
        profile_name: profile_name.to_string(),
        has_real_profiles: real,
        supports_incognito: true,
        browser_icon_path: String::new(),
        profile_icon_path: None,
        unique_id: format!("{name}-{profile_name}"),
        unique_app_id: name.to_string(),
    }
}

fn rule(index: usize, deleted: bool, source_app: &str) -> UISettingsRule {
    UISettingsRule {
        index,
        saved: true,
        deleted,
        source_app: source_app.to_string(),
        url_pattern: String::new(),
        opener: None,
    }
}

fn settings() -> UISettings {
    UISettings {
        tab: SettingsTab::Rules,
        default_opener: None,
        rules: vec![rule(0, false, "Mail"), rule(1, true, "Chat"), rule(2, false, "Notes")],
        visual_settings: UIVisualSettings {
            show_hotkeys: true,
            quit_on_lost_focus: false,
            theme: ConfiguredTheme::Auto,
        },
        behavioral_settings: UIBehavioralSettings { unwrap_urls: false },
    }
}

#[test]
fn opener_label_without_choice_prompts() {
    let browsers = UIState::real_to_ui_browsers(&[profile("Firefox", "Default", true)]);
    assert_eq!(opener_label(&None, &browsers), "Choose an opener");
}

#[test]
fn opener_label_names_the_chosen_browser() {
    let browsers = UIState::real_to_ui_browsers(&[
        profile("Firefox", "Default", true),
        profile("Safari", "Safari", false),
    ]);
    let firefox = Some(UIProfileAndIncognito { profile: "Firefox-Default".to_string(), incognito: false });
    assert_eq!(opener_label(&firefox, &browsers), "Firefox (Default)");
    let safari = Some(UIProfileAndIncognito { profile: "Safari-Safari".to_string(), incognito: true });
    assert_eq!(opener_label(&safari, &browsers), "Safari · Private");
}

#[test]
fn opener_label_of_a_missing_profile_prompts() {
    let browsers = UIState::real_to_ui_browsers(&[profile("Firefox", "Default", true)]);
    let gone = Some(UIProfileAndIncognito { profile: "Chrome-Work".to_string(), incognito: true });
    assert_eq!(opener_label(&gone, &browsers), "Choose an opener");
}

#[test]
fn tabs_have_their_positions() {
    assert_eq!(SettingsTab::General.index(), 0);
    assert_eq!(SettingsTab::Rules.index(), 1);
    assert_eq!(SettingsTab::Advanced.index(), 2);
}

#[test]
fn theme_positions_round_trip_on_each_theme() {
    for theme in [ConfiguredTheme::Auto, ConfiguredTheme::Light, ConfiguredTheme::Dark] {
        assert_eq!(theme_from_index(theme_index(theme)), theme);
    }
    assert_eq!(theme_index(ConfiguredTheme::Dark), 2);
    assert_eq!(theme_from_index(7), ConfiguredTheme::Auto);
}

#[test]
fn theme_choice_follows_configuration_then_system() {
    assert_eq!(theme_choice(ConfiguredTheme::Light, DetectedMode::Dark), ThemeChoice::Light);
    assert_eq!(theme_choice(ConfiguredTheme::Dark, DetectedMode::Light), ThemeChoice::Dark);
    assert_eq!(theme_choice(ConfiguredTheme::Auto, DetectedMode::Dark), ThemeChoice::Dark);
    assert_eq!(theme_choice(ConfiguredTheme::Auto, DetectedMode::Light), ThemeChoice::Light);
    assert_eq!(theme_choice(ConfiguredTheme::Auto, DetectedMode::Unknown), ThemeChoice::FollowSystem);
}

#[test]
fn apply_update_changes_only_the_named_value() {
    let mut s = settings();
    s.apply_update(PickerSettingsUpdate::Theme(ConfiguredTheme::Dark));
    assert_eq!(s.visual_settings.theme, ConfiguredTheme::Dark);
    assert!(s.visual_settings.show_hotkeys);
    s.apply_update(PickerSettingsUpdate::ShowHotkeys(false));
    assert!(!s.visual_settings.show_hotkeys);
    s.apply_update(PickerSettingsUpdate::QuitOnLostFocus(true));
    assert!(s.visual_settings.quit_on_lost_focus);
    s.apply_update(PickerSettingsUpdate::UnwrapUrls(true));
    assert!(s.behavioral_settings.unwrap_urls);
    assert_eq!(s.visual_settings.theme, ConfiguredTheme::Dark);
    assert_eq!(s.tab, SettingsTab::Rules);
    assert_eq!(s.rules.len(), 3);
}

#[test]
fn editable_rules_skip_deleted_ones() {
    let rules = settings().editable_rules();
    assert_eq!(rules.len(), 2);
    assert_eq!(rules[0].source_app, "Mail");
    assert_eq!(rules[1].source_app, "Notes");
    assert_eq!(rules[1].index, 2);
}

#[test]
fn rules_from_editors_renumbers_and_saves() {
    let editors = vec![
        RuleEditorValues {
            source_app: "Mail".to_string(),
            url_pattern: "*.example.com/**".to_string(),
            opener: Some(UIProfileAndIncognito { profile: "Firefox-Default".to_string(), incognito: true }),
        },
        RuleEditorValues { source_app: String::new(), url_pattern: "docs/**".to_string(), opener: None },
    ];
    let rules = rules_from_editors(&editors);
    assert_eq!(rules.len(), 2);
    assert_eq!(rules[0].index, 0);
    assert_eq!(rules[1].index, 1);
    assert!(rules.iter().all(|r| r.saved && !r.deleted));
    assert_eq!(rules[0].url_pattern, "*.example.com/**");
    let opener = rules[0].opener.as_ref().unwrap();
    assert_eq!(opener.profile, "Firefox-Default");
    assert!(opener.incognito);
    assert!(rules[1].opener.is_none());
}

#[test]
fn choose_opener_keeps_private_setting() {
    let current = Some(UIProfileAndIncognito { profile: "A".to_string(), incognito: true });
    let chosen = choose_opener(&current, "B".to_string());
    assert_eq!(chosen.profile, "B");
    assert!(chosen.incognito);
    let fresh = choose_opener(&None, "C".to_string());
    assert!(!fresh.incognito);
}

#[test]
fn set_opener_private_needs_a_choice() {
    let mut none: Option<UIProfileAndIncognito> = None;
    assert!(!set_opener_private(&mut none, true));
    assert!(none.is_none());
    let mut some = Some(UIProfileAndIncognito { profile: "A".to_string(), incognito: false });
    assert!(set_opener_private(&mut some, true));
    let o = some.unwrap();
    assert!(o.incognito);
    assert_eq!(o.profile, "A");
}

#[test]
fn rule_headings_count_from_one_with_two_digits() {
    assert_eq!(rule_heading(0), "RULE 01");
    assert_eq!(rule_heading(8), "RULE 09");
    assert_eq!(rule_heading(9), "RULE 10");
    assert_eq!(rule_heading(122), "RULE 123");
}

#[test]
fn editors_start_from_rules_and_grow_empty() {
    let mut r = rule(4, false, "Mail");
    r.url_pattern = "*.example.com/**".to_string();
    r.opener = Some(UIProfileAndIncognito { profile: "P".to_string(), incognito: true });
    let values = RuleEditorValues::from_rule(&r);
    assert_eq!(values.source_app, "Mail");
    assert_eq!(values.url_pattern, "*.example.com/**");
    assert!(values.opener.as_ref().unwrap().incognito);
    let mut editors = vec![values];
    add_rule_editor(&mut editors);
    assert_eq!(editors.len(), 2);
    assert!(editors[1].source_app.is_empty() && editors[1].url_pattern.is_empty() && editors[1].opener.is_none());
}

#[test]
fn removing_an_editor_needs_a_valid_position() {
    let mut editors = vec![
        RuleEditorValues::from_rule(&rule(0, false, "A")),
        RuleEditorValues::from_rule(&rule(1, false, "B")),
    ];
    assert!(!remove_rule_editor(&mut editors, 2));
    assert_eq!(editors.len(), 2);
    assert!(remove_rule_editor(&mut editors, 0));
    assert_eq!(editors.len(), 1);
    assert_eq!(editors[0].source_app, "B");
}
