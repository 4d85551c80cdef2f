use browsers::gui::window_placement::{
    picker_placements, picker_window_settings, PickerWindowPlacement, clamp_pixels, context_menu_size, picker_origin, picker_size, placement_origin, Bounds, Point, Size,
};

fn viewport(width: i64, height: i64) -> Bounds {
    Bounds { origin: Point { x: 0, y: 0 }, size: Size { width, height } }
}

#[test]
fn picker_size_reserves_one_row() {
    assert_eq!(picker_size(0), Size { width: 296, height: 74 });
    assert_eq!(picker_size(1), Size { width: 296, height: 74 });
    assert_eq!(picker_size(3), Size { width: 296, height: 146 });
}

#[test]
fn context_menu_adds_room() {
    assert_eq!(context_menu_size(Size { width: 296, height: 74 }), Size { width: 516, height: 294 });
}

#[test]
fn clamp_values() {
    assert_eq!(clamp_pixels(5, 10, 20), 10);
    assert_eq!(clamp_pixels(25, 10, 20), 20);
    assert_eq!(clamp_pixels(15, 10, 20), 15);
    assert_eq!(clamp_pixels(15, 20, 10), 20);
    assert_eq!(clamp_pixels(25, 20, 10), 10);
}

#[test]
fn picker_goes_below_right_of_pointer() {
    let origin = picker_origin(Point { x: 100, y: 200 }, viewport(1920, 1080), Size { width: 296, height: 146 });
    assert_eq!(origin, Point { x: 108, y: 208 });
}

#[test]
fn picker_flips_at_the_far_edges() {
    let origin = picker_origin(Point { x: 1900, y: 1000 }, viewport(1920, 1080), Size { width: 296, height: 146 });
    assert_eq!(origin, Point { x: 1900 - 296 - 8, y: 1000 - 146 - 8 });
}

#[test]
fn picker_clamped_inside_margin() {
    let origin = picker_origin(Point { x: 250, y: 100 }, viewport(500, 400), Size { width: 296, height: 146 });
    // No room right of the pointer: the picker goes left of it, then the margin holds it.
    assert_eq!(origin, Point { x: 8, y: 108 });
    let small = picker_origin(Point { x: 10, y: 10 }, viewport(300, 100), Size { width: 296, height: 146 });
    assert_eq!(small, Point { x: 0, y: 0 });
}

#[test]
fn placement_needs_a_viewport() {
    assert_eq!(placement_origin(Point { x: 1, y: 1 }, Size { width: 0, height: 10 }, Size { width: 1, height: 1 }), None);
    assert_eq!(
        placement_origin(Point { x: 100, y: 100 }, Size { width: 1920, height: 1080 }, Size { width: 296, height: 74 }),
        Some(Point { x: 108, y: 108 })
    );
}

#[test]
fn placements_fall_back_in_order() {
    assert_eq!(
        picker_placements(true, false),
        vec![PickerWindowPlacement::UnderCursor, PickerWindowPlacement::PointerProbe, PickerWindowPlacement::Default]
    );
    assert_eq!(picker_placements(false, true), vec![PickerWindowPlacement::UnderCursor]);
    assert_eq!(picker_placements(false, false), vec![PickerWindowPlacement::Default]);
}

#[test]
fn pointer_probe_is_a_layer_shell_overlay_on_linux() {
    let probe = picker_window_settings(PickerWindowPlacement::PointerProbe, false, true);
    assert!(probe.layer_shell && probe.exclusive_keyboard && !probe.movable);
    assert_eq!(probe.minimum_size, None);
    assert!(!probe.client_decorations && !probe.open_under_cursor);
    let persistent = picker_window_settings(PickerWindowPlacement::PointerProbe, true, true);
    assert!(persistent.layer_shell && !persistent.exclusive_keyboard);
    let elsewhere = picker_window_settings(PickerWindowPlacement::PointerProbe, false, false);
    assert!(!elsewhere.layer_shell && elsewhere.movable);
    let cursor = picker_window_settings(PickerWindowPlacement::UnderCursor, false, true);
    assert!(cursor.open_under_cursor && cursor.client_decorations);
    assert_eq!(cursor.minimum_size, Some(Size { width: 296, height: 38 }));
}
