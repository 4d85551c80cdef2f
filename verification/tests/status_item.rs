use browsers::macos::status_item::{action_for_tag, action_title, status_menu, StatusAction, StatusMenuEntry};

#[test]
fn menu_has_settings_refresh_separator_quit() {
    assert_eq!(
        status_menu(),
        vec![
            StatusMenuEntry::Item(0, StatusAction::Settings),
            StatusMenuEntry::Item(1, StatusAction::Refresh),
            StatusMenuEntry::Separator,
            StatusMenuEntry::Item(2, StatusAction::Quit),
        ]
    );
}

#[test]
fn each_item_tag_gives_its_action() {
    for entry in status_menu() {
        if let StatusMenuEntry::Item(tag, action) = entry {
            assert_eq!(action_for_tag(tag), Some(action));
        }
    }
    assert_eq!(action_for_tag(3), None);
    assert_eq!(action_for_tag(-1), None);
}

#[test]
fn item_titles() {
    assert_eq!(action_title(StatusAction::Settings), "Settings…");
    assert_eq!(action_title(StatusAction::Refresh), "Refresh");
    assert_eq!(action_title(StatusAction::Quit), "Quit");
}
