use browsers::gui::windows::{dismiss_on_focus_lost, AuxiliaryKind, AuxiliaryWindows};

#[test]
fn a_live_settings_window_is_activated_not_doubled() {
    let mut w = AuxiliaryWindows::new();
    assert!(w.needs_new_window(AuxiliaryKind::Settings, false));
    w.begin_open();
    w.opened(AuxiliaryKind::Settings);
    assert_eq!(w, AuxiliaryWindows { open: 1, settings: true, about: false });
    assert!(!w.needs_new_window(AuxiliaryKind::Settings, true));
    assert_eq!(w, AuxiliaryWindows { open: 1, settings: true, about: false });
}

#[test]
fn a_stale_settings_window_is_forgotten_and_reopened() {
    let mut w = AuxiliaryWindows { open: 1, settings: true, about: true };
    assert!(w.needs_new_window(AuxiliaryKind::Settings, false));
    assert_eq!(w, AuxiliaryWindows { open: 1, settings: false, about: true });
    assert!(w.needs_new_window(AuxiliaryKind::Picker, true));
}

#[test]
fn a_failed_open_is_not_counted() {
    let mut w = AuxiliaryWindows::new();
    w.begin_open();
    w.open_failed();
    assert_eq!(w, AuxiliaryWindows::new());
    let mut full = AuxiliaryWindows { open: usize::MAX, settings: false, about: false };
    full.begin_open();
    assert_eq!(full.open, 0);
    full.closed();
    assert_eq!(full.open, usize::MAX);
}

#[test]
fn picker_dismissed_on_lost_focus_only_without_other_windows() {
    let none = AuxiliaryWindows::new();
    let one = AuxiliaryWindows { open: 1, settings: true, about: false };
    assert!(dismiss_on_focus_lost(true, true, true, &none, false));
    assert!(!dismiss_on_focus_lost(true, true, true, &one, false));
    assert!(dismiss_on_focus_lost(true, true, true, &one, true));
    assert!(!dismiss_on_focus_lost(true, false, true, &none, false));
    assert!(!dismiss_on_focus_lost(true, true, false, &none, false));
    assert!(!dismiss_on_focus_lost(false, true, true, &none, false));
}
