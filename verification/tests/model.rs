use browsers::config::{
    BehavioralConfig, CommonBrowserProfile, Config, ConfigRule, ConfiguredTheme, ProfileAndOptions,
    UIConfig,
};
use browsers::gui::model::{
    set_browsers_everywhere, get_filtered_browsers, SettingsTab, UIBehavioralSettings, UIBrowser, UIProfileAndIncognito,
    UISettings, UISettingsRule, UIState, UIVisualSettings,
};
use browsers::url_rule::UrlGlobMatcher;

fn profile(name: &str, profile_name: &str, real: bool, patterns: &[&str]) -> CommonBrowserProfile {
    CommonBrowserProfile {
        restricted_url_matchers: patterns
            .iter()
            .map(|p| UrlGlobMatcher::new(p.to_string()))
            .collect(),
        browser_name: name.to_string(),
        profile_name: profile_name.to_string(),
        has_real_profiles: real,
        supports_incognito: true,
        browser_icon_path: format!("/icons/{name}.png"),
        profile_icon_path: None,
        unique_id: format!("{name}-{profile_name}"),
        unique_app_id: name.to_string(),
    }
}

fn empty_settings() -> UISettings {
    UISettings {
        tab: SettingsTab::General,
        default_opener: None,
        rules: Vec::new(),
        visual_settings: UIVisualSettings {
            show_hotkeys: true,
            quit_on_lost_focus: true,
            theme: ConfiguredTheme::Auto,
        },
        behavioral_settings: UIBehavioralSettings { unwrap_urls: false },
    }
}

fn sample_browsers() -> Vec<UIBrowser> {
    UIState::real_to_ui_browsers(&[
        profile("Firefox", "Default", true, &[]),
        profile("Work", "Jira", false, &["jira.example.com/**"]),
        profile("Chrome", "Personal", true, &[]),
    ])
}

#[test]
fn real_to_ui_browsers_marks_first_and_last() {
    let browsers = UIState::real_to_ui_browsers(&[
        profile("Work", "Jira", false, &["jira.example.com/**"]),
        profile("Firefox", "Default", true, &[]),
        profile("Chrome", "Personal", false, &[]),
    ]);
    assert_eq!(browsers.len(), 3);
    assert!(!browsers[0].is_first);
    assert!(browsers[1].is_first);
    assert!(!browsers[1].is_last);
    assert!(browsers[2].is_last);
    assert_eq!(browsers[1].profile_name_maybe, Some("Default".to_string()));
    assert_eq!(browsers[2].profile_name_maybe, None);
    assert_eq!(browsers[2].filtered_index, 2);
    assert_eq!(browsers[2].browser_profile_index, 2);
    assert_eq!(browsers[0].profile_icon_path, "");
}

#[test]
fn real_to_ui_browsers_of_nothing_is_empty() {
    assert!(UIState::real_to_ui_browsers(&[]).is_empty());
}

#[test]
fn real_to_ui_browsers_all_restricted_marks_position_zero() {
    let browsers = UIState::real_to_ui_browsers(&[
        profile("Work", "Jira", false, &["a/**"]),
        profile("Mail", "Box", false, &["b/**"]),
    ]);
    assert!(browsers[0].is_first);
    assert!(!browsers[1].is_first);
}

#[test]
fn restricted_browser_listed_first_for_matching_url() {
    let browsers = sample_browsers();
    let filtered = get_filtered_browsers("https://jira.example.com/browse/X-1", &browsers);
    let names: Vec<&str> = filtered.iter().map(|b| b.browser_name.as_str()).collect();
    assert_eq!(names, vec!["Work", "Firefox", "Chrome"]);
    let positions: Vec<usize> = filtered.iter().map(|b| b.filtered_index).collect();
    assert_eq!(positions, vec![0, 1, 2]);
}

#[test]
fn restricted_browser_hidden_for_other_url() {
    let browsers = sample_browsers();
    let filtered = get_filtered_browsers("https://example.org/", &browsers);
    let names: Vec<&str> = filtered.iter().map(|b| b.browser_name.as_str()).collect();
    assert_eq!(names, vec!["Firefox", "Chrome"]);
    assert_eq!(filtered[1].filtered_index, 1);
}

#[test]
fn restricted_browser_hidden_when_url_does_not_parse() {
    let browsers = sample_browsers();
    let filtered = get_filtered_browsers("", &browsers);
    assert_eq!(filtered.len(), 2);
}

#[test]
fn single_star_stays_within_a_path_segment() {
    let browsers = UIState::real_to_ui_browsers(&[profile("Docs", "x", false, &["example.com/*"])]);
    assert_eq!(get_filtered_browsers("https://example.com/a", &browsers).len(), 1);
    assert_eq!(get_filtered_browsers("https://example.com/a/b", &browsers).len(), 0);
}

#[test]
fn state_new_and_set_url() {
    let mut state = UIState::new(
        "https://example.org/".to_string(),
        sample_browsers(),
        Vec::new(),
        true,
        empty_settings(),
    );
    assert_eq!(state.filtered_browsers.len(), 2);
    assert_eq!(state.selected_browser(), "");
    assert!(!state.incognito_mode);
    state.focused_index = Some(1);
    state.set_url("https://jira.example.com/".to_string());
    assert_eq!(state.filtered_browsers.len(), 3);
    assert_eq!(state.focused_index, None);
    assert_eq!(state.browser(0).unwrap().browser_name, "Work");
    assert!(state.browser(3).is_none());
    state.set_selected_browser("Chrome-Personal".to_string());
    assert_eq!(state.selected_browser(), "Chrome-Personal");
    state.set_incognito_mode(true);
    assert!(state.incognito_mode);
}

#[test]
fn open_link_request_uses_private_mode_only_when_supported() {
    let mut state = UIState::new(
        "https://example.org/".to_string(),
        sample_browsers(),
        Vec::new(),
        false,
        empty_settings(),
    );
    state.set_incognito_mode(true);
    let request = state.open_link_request(1).unwrap();
    assert_eq!(request.unique_id, "Chrome-Personal");
    assert!(request.incognito);
    assert_eq!(request.url, "https://example.org/");
    assert!(state.open_link_request(5).is_none());
}

#[test]
fn set_browsers_recomputes_the_list() {
    let mut state = UIState::new(
        "https://example.org/".to_string(),
        Vec::new(),
        Vec::new(),
        false,
        empty_settings(),
    );
    assert!(state.filtered_browsers.is_empty());
    state.set_browsers(sample_browsers());
    assert_eq!(state.filtered_browsers.len(), 2);
}

#[test]
fn full_name_includes_profile_only_when_real() {
    let browsers = sample_browsers();
    assert_eq!(browsers[0].get_full_name(), "Firefox (Default)");
    assert_eq!(browsers[1].get_full_name(), "Work");
    assert!(browsers[1].has_priority_ordering());
    assert!(!browsers[0].has_priority_ordering());
}

fn sample_config() -> Config {
    Config {
        rules: vec![
            ConfigRule {
                source_app: Some("com.slack".to_string()),
                url_pattern: None,
                opener: Some(ProfileAndOptions { profile: "Firefox-Default".to_string(), incognito: true }),
            },
            ConfigRule {
                source_app: None,
                url_pattern: Some("github.com/**".to_string()),
                opener: None,
            },
        ],
        default_profile: Some(ProfileAndOptions { profile: "Chrome-Personal".to_string(), incognito: false }),
        ui: UIConfig { show_hotkeys: false, quit_on_lost_focus: true, theme: ConfiguredTheme::Dark },
        behavior: BehavioralConfig { unwrap_urls: true, strip_tracking_parameters: false },
    }
}

#[test]
fn settings_from_config() {
    let settings = UISettings::from_config(&sample_config());
    assert_eq!(settings.tab, SettingsTab::General);
    assert_eq!(settings.rules.len(), 2);
    assert_eq!(settings.rules[0].index, 0);
    assert!(settings.rules[0].saved);
    assert!(!settings.rules[0].deleted);
    assert_eq!(settings.rules[0].source_app, "com.slack");
    assert_eq!(settings.rules[0].url_pattern, "");
    assert_eq!(settings.rules[0].get_url_pattern(), None);
    assert_eq!(settings.rules[0].get_source_app(), Some("com.slack".to_string()));
    let opener = settings.rules[0].opener.as_ref().unwrap();
    assert_eq!(opener.profile, "Firefox-Default");
    assert!(opener.incognito);
    assert_eq!(settings.rules[1].url_pattern, "github.com/**");
    assert!(settings.rules[1].opener.is_none());
    assert_eq!(settings.default_opener.as_ref().unwrap().profile, "Chrome-Personal");
    assert!(!settings.visual_settings.show_hotkeys);
    assert_eq!(settings.visual_settings.theme, ConfiguredTheme::Dark);
    assert!(settings.behavioral_settings.unwrap_urls);
    let alias = UISettings::config_to_ui_settings(&sample_config());
    assert_eq!(alias.rules.len(), 2);
}

#[test]
fn add_and_save_rules() {
    let mut settings = UISettings::from_config(&sample_config());
    let rule = settings.add_empty_rule();
    assert_eq!(rule.index, 2);
    assert!(!rule.saved);
    assert_eq!(rule.source_app, "");
    assert!(rule.opener.is_none());
    settings.rules.push(UISettingsRule {
        index: 3,
        saved: false,
        deleted: true,
        source_app: String::new(),
        url_pattern: String::new(),
        opener: None,
    });
    settings.mark_rules_as_saved();
    assert!(settings.rules[2].saved);
    assert!(!settings.rules[3].saved);
    assert_eq!(settings.rule(1).unwrap().index, 1);
    assert!(settings.rule(9).is_none());
}

#[test]
fn settings_values_from_parts() {
    let visual = UIVisualSettings::from_config(&UIConfig {
        show_hotkeys: true,
        quit_on_lost_focus: false,
        theme: ConfiguredTheme::Light,
    });
    assert!(visual.show_hotkeys);
    assert!(!visual.quit_on_lost_focus);
    let behavior = UIBehavioralSettings::from_config(&BehavioralConfig {
        unwrap_urls: false,
        strip_tracking_parameters: true,
    });
    assert!(!behavior.unwrap_urls);
    let opener = UIProfileAndIncognito::from(&ProfileAndOptions { profile: "p".to_string(), incognito: true });
    assert_eq!(opener.profile, "p");
    assert!(opener.incognito);
    assert_eq!(SettingsTab::default(), SettingsTab::General);
    assert_eq!(SettingsTab::from_index(1), SettingsTab::Rules);
    assert_eq!(SettingsTab::from_index(2), SettingsTab::Advanced);
    assert_eq!(SettingsTab::from_index(7), SettingsTab::General);
    assert_eq!(SettingsTab::RULES, SettingsTab::Rules);
}

#[test]
fn filtering_the_list_again_changes_nothing() {
    let browsers = sample_browsers();
    for url in ["https://jira.example.com/browse/X-1", "https://example.org/", ""] {
        let once = get_filtered_browsers(url, &browsers);
        let twice = get_filtered_browsers(url, &once);
        assert_eq!(once.len(), twice.len());
        for (a, b) in once.iter().zip(twice.iter()) {
            assert_eq!(a.unique_id, b.unique_id);
            assert_eq!(a.filtered_index, b.filtered_index);
            assert_eq!(a.browser_profile_index, b.browser_profile_index);
        }
    }
}

fn same_list(a: &[UIBrowser], b: &[UIBrowser]) -> bool {
    a.len() == b.len()
        && a.iter().zip(b).all(|(x, y)| x.unique_id == y.unique_id && x.filtered_index == y.filtered_index)
}

#[test]
fn visible_list_stays_current_through_changes() {
    let mut s = UIState::new("https://jira.example.com/x".to_string(), sample_browsers(), Vec::new(), false, empty_settings());
    assert!(same_list(&s.filtered_browsers, &get_filtered_browsers(&s.url, &s.browsers)));
    s.set_selected_browser("Firefox-Default".to_string());
    s.set_incognito_mode(true);
    assert!(same_list(&s.filtered_browsers, &get_filtered_browsers(&s.url, &s.browsers)));
    s.set_url("https://example.org/".to_string());
    assert!(same_list(&s.filtered_browsers, &get_filtered_browsers(&s.url, &s.browsers)));
}

#[test]
fn new_browsers_reach_an_open_picker_for_its_own_url() {
    let mut main = UIState::new("https://example.org/".to_string(), Vec::new(), Vec::new(), false, empty_settings());
    let mut picker = Some(UIState::new(
        "https://jira.example.com/x".to_string(),
        Vec::new(),
        Vec::new(),
        false,
        empty_settings(),
    ));
    set_browsers_everywhere(&mut main, &mut picker, sample_browsers());
    assert_eq!(main.browsers.len(), 3);
    assert_eq!(main.filtered_browsers.len(), 2);
    let picker = picker.unwrap();
    assert_eq!(picker.browsers.len(), 3);
    assert_eq!(picker.filtered_browsers.len(), 3);
    assert_eq!(picker.filtered_browsers[0].unique_id, "Work-Jira");
    let mut none: Option<UIState> = None;
    set_browsers_everywhere(&mut main, &mut none, Vec::new());
    assert!(none.is_none() && main.filtered_browsers.is_empty());
}
