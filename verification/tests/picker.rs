use browsers::config::{CommonBrowserProfile, ConfiguredTheme};
use browsers::gui::model::{SettingsTab, UIBehavioralSettings, UIBrowser, UISettings, UIState, UIVisualSettings};
use browsers::gui::picker::{
    browser_context_menu, handle_key_down, handle_modifiers_changed, hotkey_label, options_menu,
    picker_row_name, picker_row_profile, DismissEffect, KeyOutcome, MenuEntry, MoveTo,
    PickerCommand, PickerKey, PickerModel, PickerPlacement, PlacementStep, ResizeEffect, ShowEffect,
};
use browsers::gui::window_placement::{Bounds, Point, Size};
use browsers::url_rule::UrlGlobMatcher;

fn profile(name: &str, real: bool, restricted: bool) -> CommonBrowserProfile {
    CommonBrowserProfile {
        restricted_url_matchers: if restricted { vec![UrlGlobMatcher::new("x/**".to_string())] } else { Vec::new() },
        browser_name: name.to_string(),
        profile_name: "P".to_string(),
        has_real_profiles: real,
        supports_incognito: name != "Safari",
        browser_icon_path: String::new(),
        profile_icon_path: Some("/p.png".to_string()),
        unique_id: format!("{name}-id"),
        unique_app_id: format!("{name}-app"),
    }
}

fn browsers(n: usize) -> Vec<UIBrowser> {
    let profiles: Vec<CommonBrowserProfile> = (0..n).map(|i| profile(&format!("B{i}"), true, false)).collect();
    UIState::real_to_ui_browsers(&profiles)
}

fn state(n: usize) -> UIState {
    UIState::new(
        "https://example.org/".to_string(),
        browsers(n),
        Vec::new(),
        true,
        UISettings {
            tab: SettingsTab::General,
            default_opener: None,
            rules: Vec::new(),
            visual_settings: UIVisualSettings { show_hotkeys: true, quit_on_lost_focus: true, theme: ConfiguredTheme::Auto },
            behavioral_settings: UIBehavioralSettings { unwrap_urls: false },
        },
    )
}

#[test]
fn key_names() {
    assert_eq!(PickerKey::from_name("escape"), PickerKey::Escape);
    assert_eq!(PickerKey::from_name("enter"), PickerKey::Enter);
    assert_eq!(PickerKey::from_name("space"), PickerKey::Space);
    assert_eq!(PickerKey::from_name("up"), PickerKey::Up);
    assert_eq!(PickerKey::from_name("down"), PickerKey::Down);
    assert_eq!(PickerKey::from_name(","), PickerKey::Comma);
    assert_eq!(PickerKey::from_name("c"), PickerKey::LetterC);
    assert_eq!(PickerKey::from_name("7"), PickerKey::Digit(7));
    assert_eq!(PickerKey::from_name("f1"), PickerKey::Other);
    assert_eq!(PickerKey::from_name(""), PickerKey::Other);
}

#[test]
fn arrows_wrap_around() {
    let mut s = state(3);
    assert_eq!(handle_key_down(true, false, &mut s, PickerKey::Up, false, false), KeyOutcome::FocusMoved);
    assert_eq!(s.focused_index, Some(2));
    handle_key_down(true, false, &mut s, PickerKey::Down, false, false);
    assert_eq!(s.focused_index, Some(0));
    handle_key_down(true, false, &mut s, PickerKey::Down, false, false);
    assert_eq!(s.focused_index, Some(1));
    handle_key_down(true, false, &mut s, PickerKey::Up, false, false);
    assert_eq!(s.focused_index, Some(0));
}

#[test]
fn down_with_no_browsers_does_nothing() {
    let mut s = state(0);
    assert_eq!(handle_key_down(true, false, &mut s, PickerKey::Down, false, false), KeyOutcome::Ignore);
    assert_eq!(s.focused_index, None);
    assert_eq!(handle_key_down(true, false, &mut s, PickerKey::Up, false, false), KeyOutcome::FocusMoved);
    assert_eq!(s.focused_index, Some(0));
}

#[test]
fn enter_and_digits_open() {
    let mut s = state(3);
    assert_eq!(handle_key_down(true, false, &mut s, PickerKey::Enter, true, false), KeyOutcome::Open(0));
    assert!(s.incognito_mode);
    s.focused_index = Some(2);
    assert_eq!(handle_key_down(true, false, &mut s, PickerKey::Space, false, false), KeyOutcome::Open(2));
    assert!(!s.incognito_mode);
    assert_eq!(handle_key_down(true, false, &mut s, PickerKey::Digit(1), false, false), KeyOutcome::Open(0));
    assert_eq!(handle_key_down(true, false, &mut s, PickerKey::Digit(0), false, false), KeyOutcome::Open(9));
}

#[test]
fn escape_and_commands() {
    let mut s = state(2);
    assert_eq!(handle_key_down(false, false, &mut s, PickerKey::Escape, true, false), KeyOutcome::CloseWindow);
    assert!(!s.incognito_mode);
    assert_eq!(handle_key_down(false, false, &mut s, PickerKey::Enter, false, false), KeyOutcome::Ignore);
    assert_eq!(handle_key_down(true, true, &mut s, PickerKey::Escape, true, false), KeyOutcome::CollapseContextMenu);
    assert!(!s.incognito_mode);
    assert_eq!(handle_key_down(true, false, &mut s, PickerKey::Escape, false, false), KeyOutcome::DismissPicker);
    assert_eq!(handle_key_down(true, false, &mut s, PickerKey::Comma, false, true), KeyOutcome::ShowSettings);
    assert_eq!(handle_key_down(true, false, &mut s, PickerKey::Comma, false, false), KeyOutcome::Ignore);
    assert_eq!(handle_key_down(true, false, &mut s, PickerKey::LetterC, false, true), KeyOutcome::CopyUrl);
    assert_eq!(handle_key_down(true, false, &mut s, PickerKey::Other, false, true), KeyOutcome::Ignore);
}

#[test]
fn modifiers_follow_shift() {
    let mut s = state(1);
    assert!(handle_modifiers_changed(&mut s, true));
    assert!(s.incognito_mode);
    assert!(!handle_modifiers_changed(&mut s, true));
}

#[test]
fn hotkey_labels() {
    assert_eq!(hotkey_label(0), Some("1".to_string()));
    assert_eq!(hotkey_label(8), Some("9".to_string()));
    assert_eq!(hotkey_label(9), Some("0".to_string()));
    assert_eq!(hotkey_label(10), None);
    let mut s = state(10);
    for index in 0..10 {
        let label = hotkey_label(index).unwrap();
        let key = PickerKey::from_name(&label);
        assert_eq!(handle_key_down(true, false, &mut s, key, false, false), KeyOutcome::Open(index));
    }
}

fn labels(menu: &[MenuEntry]) -> Vec<String> {
    menu.iter()
        .map(|e| match e {
            MenuEntry::Item { label, disabled, .. } => format!("{label}{}", if *disabled { " (off)" } else { "" }),
            MenuEntry::Separator => "-".to_string(),
            MenuEntry::Heading(text) => format!("[{text}]"),
        })
        .collect()
}

#[test]
fn context_menu_of_first_browser() {
    let bs = browsers(2);
    let menu = browser_context_menu(&bs[0]);
    assert_eq!(
        labels(&menu),
        vec!["Move to top (off)", "Move up (off)", "Move down", "Move to bottom", "-", "Hide profile", "Hide all profiles"]
    );
    match &menu[2] {
        MenuEntry::Item { command: PickerCommand::MoveProfile(id, MoveTo::Down), .. } => assert_eq!(id, "B0-id"),
        _ => panic!("expected a move item"),
    }
    match &menu[6] {
        MenuEntry::Item { command: PickerCommand::HideAllProfiles(id), .. } => assert_eq!(id, "B0-app"),
        _ => panic!("expected hide all"),
    }
}

#[test]
fn context_menu_of_restricted_single_profile_browser() {
    let bs = UIState::real_to_ui_browsers(&[profile("Work", false, true)]);
    assert_eq!(labels(&browser_context_menu(&bs[0])), vec!["Hide profile"]);
}

#[test]
fn options_menu_entries() {
    let hidden = browsers(1);
    assert_eq!(
        labels(&options_menu(true, &hidden)),
        vec![
            "Refresh applications",
            "Make Browsers default",
            "-",
            "[Restore hidden profiles]",
            "B0 (P)",
            "-",
            "Settings…",
            "About Browsers",
            "Quit"
        ]
    );
    assert_eq!(
        labels(&options_menu(false, &Vec::new())),
        vec!["Refresh applications", "-", "Settings…", "About Browsers", "Quit"]
    );
}

#[test]
fn row_names() {
    let bs = UIState::real_to_ui_browsers(&[profile("Firefox", true, false), profile("Safari", false, false)]);
    assert_eq!(picker_row_name(&bs[0], true), "Firefox · Private");
    assert_eq!(picker_row_name(&bs[0], false), "Firefox");
    assert_eq!(picker_row_name(&bs[1], true), "Safari");
    assert_eq!(picker_row_profile(&bs[0]), Some("P".to_string()));
    assert_eq!(picker_row_profile(&bs[1]), None);
}

#[test]
fn picker_visibility() {
    let mut m = PickerModel::new_picker(false, false);
    assert!(m.picker_visible);
    assert_eq!(m.dismiss(), DismissEffect::Quit);
    let mut aux = PickerModel::new_auxiliary(false);
    assert_eq!(aux.dismiss(), DismissEffect::RemoveWindow);
    let size = Size { width: 296, height: 110 };
    let mut daemon = PickerModel::new_picker(true, true);
    assert!(!daemon.picker_visible);
    assert_eq!(daemon.resize_effect(size), ResizeEffect::Nothing);
    assert_eq!(daemon.show(size), ShowEffect::StartPlacement);
    assert!(daemon.picker_visible);
    assert_eq!(daemon.placement_step(false), PlacementStep::Retry);
    assert!(daemon.accepts_pointer_move());
    assert_eq!(daemon.resize_effect(size), ResizeEffect::Nothing);
    assert!(!daemon.place_at(Point { x: 5, y: 5 }, Size { width: 0, height: 100 }, size));
    assert!(daemon.place_at(Point { x: 100, y: 100 }, Size { width: 1920, height: 1080 }, size));
    assert_eq!(daemon.placement, PickerPlacement::Placed(Point { x: 108, y: 108 }));
    assert_eq!(daemon.placement_step(true), PlacementStep::Stop);
    assert_eq!(
        daemon.resize_effect(size),
        ResizeEffect::InputRegion(Bounds { origin: Point { x: 108, y: 108 }, size })
    );
    let expanded = daemon.expand_for_context_menu(size);
    assert_eq!(expanded, Size { width: 516, height: 330 });
    assert!(daemon.collapse_context_menu(size).is_some());
    assert!(daemon.collapse_context_menu(size).is_none());
    assert_eq!(daemon.dismiss(), DismissEffect::Hide);
    assert!(!daemon.picker_visible);
    assert_eq!(daemon.placement, PickerPlacement::Waiting);
    let mut plain = PickerModel::new_daemon();
    assert_eq!(plain.show(size), ShowEffect::ResizeAndActivate(size));
}
